use vstd::prelude::*;

use crate::entities::{AdminStateRow, Country, CountryOption, State, StateOption, StateWithCountry};
use crate::text::{append_decimal_i64, decimal, lemma_decimal_injective};

verus! {

/// Seconds a cached countries or states list stays valid.
pub const CACHE_TTL_SECONDS: i64 = 300;

/// The country option that stands for a country row.
pub open spec fn country_option_of(c: Country) -> CountryOption {
    CountryOption { id: c.id, name: c.name }
}

/// The state option that stands for a state row.
pub open spec fn state_option_of(s: State) -> StateOption {
    StateOption { id: s.id, country_id: s.country_id, name: s.name }
}

/// The table row that stands for a state joined with its country.
pub open spec fn admin_state_row_of(s: StateWithCountry) -> AdminStateRow {
    AdminStateRow { id: s.id, country_id: s.country_id, country_name: s.country_name, name: s.name }
}

/// Turns country rows into select options, in the same order.
pub fn map_country_options(countries: Vec<Country>) -> (r: Vec<CountryOption>)
    ensures
        r@ == countries@.map_values(|c: Country| country_option_of(c)),
{
    let mut r: Vec<CountryOption> = Vec::new();
    let mut i: usize = 0;
    while i < countries.len()
        invariant
            i <= countries@.len(),
            r@ == countries@.take(i as int).map_values(|c: Country| country_option_of(c)),
        decreases countries@.len() - i,
    {
        let c = &countries[i];
        r.push(CountryOption { id: c.id, name: c.name.clone() });
        proof {
            assert(countries@.take(i + 1) =~= countries@.take(i as int).push(countries@[i as int]));
        }
        i = i + 1;
        proof {
            assert(r@ =~= countries@.take(i as int).map_values(|c: Country| country_option_of(c)));
        }
    }
    proof {
        assert(countries@.take(i as int) =~= countries@);
    }
    r
}

/// Turns state rows into select options, in the same order.
pub fn map_state_options(states: Vec<State>) -> (r: Vec<StateOption>)
    ensures
        r@ == states@.map_values(|s: State| state_option_of(s)),
{
    let mut r: Vec<StateOption> = Vec::new();
    let mut i: usize = 0;
    while i < states.len()
        invariant
            i <= states@.len(),
            r@ == states@.take(i as int).map_values(|s: State| state_option_of(s)),
        decreases states@.len() - i,
    {
        let s = &states[i];
        r.push(StateOption { id: s.id, country_id: s.country_id, name: s.name.clone() });
        proof {
            assert(states@.take(i + 1) =~= states@.take(i as int).push(states@[i as int]));
        }
        i = i + 1;
        proof {
            assert(r@ =~= states@.take(i as int).map_values(|s: State| state_option_of(s)));
        }
    }
    proof {
        assert(states@.take(i as int) =~= states@);
    }
    r
}

/// Turns joined state rows into the rows of the admin states table, in the same order.
pub fn map_admin_state_rows(states: Vec<StateWithCountry>) -> (r: Vec<AdminStateRow>)
    ensures
        r@ == states@.map_values(|s: StateWithCountry| admin_state_row_of(s)),
{
    let mut r: Vec<AdminStateRow> = Vec::new();
    let mut i: usize = 0;
    while i < states.len()
        invariant
            i <= states@.len(),
            r@ == states@.take(i as int).map_values(|s: StateWithCountry| admin_state_row_of(s)),
        decreases states@.len() - i,
    {
        let s = &states[i];
        r.push(
            AdminStateRow {
                id: s.id,
                country_id: s.country_id,
                country_name: s.country_name.clone(),
                name: s.name.clone(),
            },
        );
        proof {
            assert(states@.take(i + 1) =~= states@.take(i as int).push(states@[i as int]));
        }
        i = i + 1;
        proof {
            assert(r@ =~= states@.take(i as int).map_values(
                |s: StateWithCountry| admin_state_row_of(s),
            ));
        }
    }
    proof {
        assert(states@.take(i as int) =~= states@);
    }
    r
}

/// Country options from a database read, or none when the read failed.
pub fn country_options_or_empty<E>(rows: Result<Vec<Country>, E>) -> (r: Vec<CountryOption>)
    ensures
        match rows {
            Ok(v) => r@ == v@.map_values(|c: Country| country_option_of(c)),
            Err(_) => r@.len() == 0,
        },
{
    match rows {
        Ok(v) => map_country_options(v),
        Err(_) => Vec::new(),
    }
}

/// Cache key of the countries list.
pub open spec fn countries_cache_key_text() -> Seq<char> {
    "geo:countries"@
}

/// Cache key of the states list of a country.
pub open spec fn states_cache_key_text(country_id: int) -> Seq<char> {
    "geo:states:"@ + decimal(country_id)
}

/// The cache key of the countries list.
pub fn countries_cache_key() -> (k: String)
    ensures
        k@ == countries_cache_key_text(),
{
    String::from_str("geo:countries")
}

/// The cache key of the states list of `country_id`.
pub fn states_cache_key(country_id: i32) -> (k: String)
    ensures
        k@ == states_cache_key_text(country_id as int),
{
    let mut k = String::from_str("geo:states:");
    append_decimal_i64(&mut k, country_id as i64);
    k
}

/// What a cache read decides: use the cached list, or load from the database.
#[derive(Debug)]
pub enum CacheLookup<T> {
    Hit(Vec<T>),
    Miss,
}

/// A cached list that could be read and decoded is used as it is; anything
/// else (absent, unreadable, undecodable) sends the caller to the database.
pub fn cache_lookup<T>(decoded: Option<Vec<T>>) -> (r: CacheLookup<T>)
    ensures
        match decoded {
            Some(v) => r matches CacheLookup::Hit(w) && w@ == v@,
            None => r is Miss,
        },
{
    match decoded {
        Some(v) => CacheLookup::Hit(v),
        None => CacheLookup::Miss,
    }
}

/// HTTP status of a failed geo list load.
pub const LOAD_FAILED_STATUS: u16 = 500;

/// Countries list after a cache miss: the options, or the 500 status when
/// the database read failed.
pub fn countries_after_load<E>(rows: Result<Vec<Country>, E>) -> (r: Result<Vec<CountryOption>, u16>)
    ensures
        match rows {
            Ok(v) => r matches Ok(o) && o@ == v@.map_values(|c: Country| country_option_of(c)),
            Err(_) => r == Err::<Vec<CountryOption>, u16>(LOAD_FAILED_STATUS),
        },
{
    match rows {
        Ok(v) => Ok(map_country_options(v)),
        Err(_) => Err(LOAD_FAILED_STATUS),
    }
}

/// States list after a cache miss: the options, or the 500 status when
/// the database read failed.
pub fn states_after_load<E>(rows: Result<Vec<State>, E>) -> (r: Result<Vec<StateOption>, u16>)
    ensures
        match rows {
            Ok(v) => r matches Ok(o) && o@ == v@.map_values(|s: State| state_option_of(s)),
            Err(_) => r == Err::<Vec<StateOption>, u16>(LOAD_FAILED_STATUS),
        },
{
    match rows {
        Ok(v) => Ok(map_state_options(v)),
        Err(_) => Err(LOAD_FAILED_STATUS),
    }
}

/// The keys to delete after any country or state change: the countries
/// list first, then the states list of every country that could be read.
pub open spec fn geo_keys_spec(countries: Seq<Country>) -> Seq<Seq<char>> {
    seq![countries_cache_key_text()] + countries.map_values(|c: Country| states_cache_key_text(c.id as int))
}

/// Cache keys to delete after a change to countries or states.
pub fn geo_cache_keys_to_delete<E>(countries: Result<Vec<Country>, E>) -> (keys: Vec<String>)
    ensures
        keys@.map_values(|k: String| k@) == match countries {
            Ok(v) => geo_keys_spec(v@),
            Err(_) => seq![countries_cache_key_text()],
        },
{
    let mut keys: Vec<String> = Vec::new();
    keys.push(countries_cache_key());
    match countries {
        Ok(v) => {
            let mut i: usize = 0;
            while i < v.len()
                invariant
                    i <= v@.len(),
                    keys@.map_values(|k: String| k@) == geo_keys_spec(v@.take(i as int)),
                decreases v@.len() - i,
            {
                keys.push(states_cache_key(v[i].id));
                proof {
                    assert(v@.take(i + 1) =~= v@.take(i as int).push(v@[i as int]));
                    assert(geo_keys_spec(v@.take(i + 1)) =~= geo_keys_spec(v@.take(i as int)).push(
                        states_cache_key_text(v@[i as int].id as int),
                    ));
                }
                i = i + 1;
                proof {
                    assert(keys@.map_values(|k: String| k@) =~= geo_keys_spec(v@.take(i as int)));
                }
            }
            proof {
                assert(v@.take(i as int) =~= v@);
            }
            keys
        },
        Err(_) => {
            proof {
                assert(keys@.map_values(|k: String| k@) =~= seq![countries_cache_key_text()]);
            }
            keys
        },
    }
}

/// The keys to delete after any geo change, given what the countries read
/// gave: the countries list, then the states list of every country read.
pub open spec fn geo_change_keys<E>(countries: Result<Vec<Country>, E>) -> Seq<Seq<char>> {
    match countries {
        Ok(v) => geo_keys_spec(v@),
        Err(_) => seq![countries_cache_key_text()],
    }
}

/// Cache keys to delete after country `id` was deleted: those of any geo
/// change (from the countries read after the delete), then the deleted
/// country's own states list, which that read no longer names.
pub fn country_delete_cache_keys<E>(id: i32, countries_after: Result<Vec<Country>, E>) -> (keys: Vec<String>)
    ensures
        keys@.map_values(|k: String| k@) == geo_change_keys(countries_after).push(states_cache_key_text(id as int)),
{
    let ghost expected = geo_change_keys(countries_after);
    let mut keys = geo_cache_keys_to_delete(countries_after);
    keys.push(states_cache_key(id));
    proof {
        assert(keys@.map_values(|k: String| k@) =~= expected.push(states_cache_key_text(id as int)));
    }
    keys
}

/// After a country is deleted, the countries list and the deleted
/// country's states list are dropped from the cache, and so is the states
/// list of every country that is still there.
pub proof fn lemma_country_delete_clears_its_keys<E>(id: i32, countries_after: Result<Vec<Country>, E>, i: int)
    ensures
        geo_change_keys(countries_after).push(states_cache_key_text(id as int)).contains(countries_cache_key_text()),
        geo_change_keys(countries_after).push(states_cache_key_text(id as int)).contains(states_cache_key_text(id as int)),
        match countries_after {
            Ok(v) => 0 <= i < v@.len() ==> geo_change_keys(countries_after).push(
                states_cache_key_text(id as int),
            ).contains(states_cache_key_text(v@[i].id as int)),
            Err(_) => true,
        },
{
    let keys = geo_change_keys(countries_after).push(states_cache_key_text(id as int));
    assert(keys[0] == countries_cache_key_text());
    assert(keys[keys.len() - 1] == states_cache_key_text(id as int));
    if let Ok(v) = countries_after {
        if 0 <= i < v@.len() {
            assert(keys[i + 1] == states_cache_key_text(v@[i].id as int));
        }
    }
}

/// Every country gets a cache key of its own for its states list, and no
/// states key is the key of the countries list.
pub proof fn lemma_geo_cache_keys_distinct(a: int, b: int)
    ensures
        a != b ==> states_cache_key_text(a) != states_cache_key_text(b),
        states_cache_key_text(a) != countries_cache_key_text(),
{
    reveal_strlit("geo:states:");
    reveal_strlit("geo:countries");
    if states_cache_key_text(a) == states_cache_key_text(b) {
        assert(states_cache_key_text(a).skip(11) =~= decimal(a));
        assert(states_cache_key_text(b).skip(11) =~= decimal(b));
        lemma_decimal_injective(a, b);
    }
    assert(states_cache_key_text(a)[4] == 's');
    assert(countries_cache_key_text()[4] == 'c');
}

/// After a geo change, the countries list and the states list of every
/// country that could be read are dropped from the cache.
pub proof fn lemma_invalidation_covers_every_country(countries: Seq<Country>, i: int)
    requires
        0 <= i < countries.len(),
    ensures
        geo_keys_spec(countries).contains(countries_cache_key_text()),
        geo_keys_spec(countries).contains(states_cache_key_text(countries[i].id as int)),
{
    assert(geo_keys_spec(countries)[0] == countries_cache_key_text());
    assert(geo_keys_spec(countries)[i + 1] == states_cache_key_text(countries[i].id as int));
}

} // verus!

# boilerplate

A web application for user, administrator and geo (countries and states)
management, with sessions, CSRF protection, bcrypt passwords, a Redis cache
of the geo lists, a DataTables users API and a PDF export of users.

## Layout

- `src/` is the verified library. Every request handler is split into the
  decisions it takes, written as step functions with exact contracts:
  given what the session, the form and each database answer hold, a step
  either asks for the next operation (`Step::Run`) or gives the answer
  (`Step::Finish`). The library also holds the SQL texts, the cache keys,
  the page layout of the PDF export, the date formats and the form rules.
- `app/` is the Axum server around it: routing, sessions, the database and
  Redis calls, HTML rendering and the PDF drawing. It runs each handler's
  steps in a loop, performing the operation each step asks for.
- `tests/` run the library on concrete values.

## Behaviour worth knowing

- Signing in and registering renew the session id once the account is in
  the session (against session fixation); the user then lands on
  `/user/dashboard`.
- On the admin user edit form, a new password made of white space alone
  leaves the password unchanged; any other text is stored as typed. A
  successful edit goes to the user's page.
- Admin pages that list countries show an error page when the countries
  cannot be loaded.
- Redirects are given as site paths; `app/` puts the site's URL prefix in
  front of them.
- After a country is deleted, the cache keys removed are the countries list,
  the states list of every remaining country, and the deleted country's own
  states list.
- The PDF export has a header row and one fixed-width line per user, in the
  order the export query returns them.

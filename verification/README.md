# zero2prod

A newsletter subscription service. The library under `src/` holds its
logic, verified with Verus:

- `text`: Unicode white space, trimming, decimal rendering, lowercase.
- `email`, `name`, `subscriber`: validated subscriber data; parsing
  drops surrounding white space, and the types keep their validity as an
  invariant.
- `subscriptions`: turning a submitted form into a subscriber, and the
  status the endpoint answers with.
- `settings`: listening address, database connection options, and the
  deployment environment.
- `email_client`: the request that delivers one message.

`app/` is the HTTP server around it (actix-web, sqlx, reqwest, config):
it reads settings, accepts requests, stores subscribers and sends mail.

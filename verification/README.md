# message_api

The messaging API of the Mairie 360 platform: chats, messages, members and a real-time SSE
channel, served over HTTP.

- `src/` is the library, verified with Verus: the validation of request values, the database
  queries (their SQL and parameters), and every route as a sequence of steps — each step a
  function from what the database answered to the next query or to the HTTP answer.
- `app/` is the HTTP service: actix-web handlers that run those steps against the database
  library, the JSON shapes of requests and answers, the SSE stream and the OpenAPI document.
- `tests/` exercises the library on concrete values.

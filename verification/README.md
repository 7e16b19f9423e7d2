# task_service

A small task-tracking web service: users register and log in, then keep
projects and tasks. The service is split in two.

- `src/` is the verified library (Verus). It holds the data model, the SQL
  text of the repository updates, the in-memory task store, the queue-address
  cache, the replies of the HTTP endpoints and the decision steps of
  registration and login, each with its contract, and the laws that relate
  them.
- `app/` is the program around it: the actix-web server, the PostgreSQL
  repositories, password hashing, token signing, the SQS client and the
  JSON wire forms of the library's types. It runs the library's flows and
  hands them what the outside world answered.

# bookshelf

A book-management web service. `src/` is the verified library: the domain model
(books, users, roles, checkouts, pages of lists), the decisions that the
repositories, the request extractor and the HTTP handlers make around their
database and key-value store calls, the key-value store client's URL, and the
registry of shared repositories. `app/` is the server around it: configuration,
logging, the PostgreSQL and Redis calls, and the axum routes.

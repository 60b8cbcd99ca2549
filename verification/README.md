# rocket

The parts of Rocket that decide something, verified with Verus:

- `error`: launch errors, what they display, and how one that nobody inspected aborts;
- `req_res_pair`: a response kept with the request it may borrow from, and its way to the wire;
- `head` and `response`: the head of a response on `hyper`, bodies and headers;
- `databases`: connection pools, the permits their connections are held under, request guards, and
  the account of the permits;
- `templates`: the request guard for template metadata;
- `outcome` and `report`: what guards decide, and what is written to the log.

`src/` is the library. `app/` is the code around it: the async runtime, the database drivers, the
HTTP server and the log. `tests/` holds the tests of the library.

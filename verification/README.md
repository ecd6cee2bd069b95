# toy_load_balancer

A small HTTP load balancer. `src/` holds its decision logic, verified with
Verus: round-robin host selection (`host_resolver`), the per-request routing
state machine with cache lookup, retries and response caching (`router`),
URL construction checked with hyper's URI parser (`uri`, `proxy`), the cache
interface and its no-op implementations (`cache`, `redis_service`), the
upstream assignment strategies (`server_manager`) and the parsing of
`property=value` lines (`file_utils`).

`app/` is the program around it: configuration, the hyper/tokio server that
drives the router, the Redis-backed caches, IPC channels and file reading.

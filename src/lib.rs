// An HTTP gateway over a Bitcoin node's JSON-RPC interface: the upstream
// handle's lifecycle, the routes that turn a request into one RPC call and
// its result into an HTTP response, and the block-hash text those routes read.
pub mod block_hash;
pub mod decimal;
pub mod response;
pub mod routes;
pub mod upstream;

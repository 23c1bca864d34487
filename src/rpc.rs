//! The procedures the echo server offers to a dispatch layer: their results
//! are plain values, and the dispatch itself lies outside this library.

use vstd::prelude::*;

verus! {

/// Why a procedure could not give its result.
#[derive(Debug, Clone, Copy, PartialEq, Eq, Structural)]
pub enum RpcError {
    /// The sum does not fit in the result type.
    Overflow,
}

/// The text of the `exit` procedure's result, which ends a session.
pub open spec fn exit_text() -> Seq<char> {
    "exit"@
}

/// The text of the `say_hello` procedure's result.
pub open spec fn hello_text() -> Seq<char> {
    "Hello, World!"@
}

/// The named procedures of the server.
pub trait Rpc {
    /// `add`: the sum of two unsigned integers, refused where it overflows.
    fn add(&self, a: u64, b: u64) -> (r: Result<u64, RpcError>)
        ensures
            a + b <= u64::MAX ==> r == Ok::<u64, RpcError>((a + b) as u64),
            a + b > u64::MAX ==> r == Err::<u64, RpcError>(RpcError::Overflow);

    /// `exit`: the sentinel result that ends the session.
    fn exit(&self) -> (r: String)
        ensures
            r@ == exit_text();

    /// `say_hello`: a greeting.
    fn say_hello(&self) -> (r: String)
        ensures
            r@ == hello_text();

    /// `add_i32`: the sum of two signed integers, refused where it overflows.
    fn add_i32(&self, a: i32, b: i32) -> (r: Result<i32, RpcError>)
        ensures
            i32::MIN <= a + b <= i32::MAX ==> r == Ok::<i32, RpcError>((a + b) as i32),
            !(i32::MIN <= a + b <= i32::MAX) ==> r == Err::<i32, RpcError>(RpcError::Overflow);
}

/// The server's implementation of the procedures.
pub struct RpcImpl;

impl Rpc for RpcImpl {
    fn add(&self, a: u64, b: u64) -> (r: Result<u64, RpcError>) {
        if a > u64::MAX - b {
            Err(RpcError::Overflow)
        } else {
            Ok(a + b)
        }
    }

    fn exit(&self) -> (r: String) {
        let r = String::from_str("exit");
        proof {
            reveal_strlit("exit");
        }
        r
    }

    fn say_hello(&self) -> (r: String) {
        let r = String::from_str("Hello, World!");
        proof {
            reveal_strlit("Hello, World!");
        }
        r
    }

    fn add_i32(&self, a: i32, b: i32) -> (r: Result<i32, RpcError>) {
        if b > 0 && a > i32::MAX - b {
            Err(RpcError::Overflow)
        } else if b < 0 && a < i32::MIN - b {
            Err(RpcError::Overflow)
        } else {
            Ok(a + b)
        }
    }
}

} // verus!

//! The server's console: the lines it prints and the commands it is sent.
use vstd::prelude::*;

verus! {

/// A command for the server's console.
#[derive(Clone, Debug)]
pub struct ServerStdioRequest {
    pub command: String,
}

/// A line the server printed, or an error.
#[derive(Clone, Debug)]
pub struct ServerStdioResponse {
    pub is_error: bool,
    pub output: String,
}

impl ServerStdioRequest {
    /// The request that sends `value` as a command.
    pub fn from(value: &str) -> (r: Self)
        ensures
            r.command@ == value@,
    {
        ServerStdioRequest { command: value.to_owned() }
    }
}

/// The response that carries a line of the server's output.
pub fn stdout_response(line: String) -> (r: ServerStdioResponse)
    ensures
        !r.is_error,
        r.output@ == line@,
{
    ServerStdioResponse { is_error: false, output: line }
}

/// The text of the error reported when a command could not be written to the
/// server: `Unable to send command: <command>`.
pub fn send_failure_message(command: &str) -> (r: String)
    ensures
        r@ == "Unable to send command: "@ + command@,
{
    let mut r = "Unable to send command: ".to_owned();
    r.append(command);
    r
}

/// A line read from the server's output: `None` at the end of the output
/// (a read of no bytes), else the line.
pub fn line_or_end(num_read: usize, line: String) -> (r: Option<String>)
    ensures
        num_read == 0 ==> r is None,
        num_read != 0 ==> r == Some(line),
{
    if num_read == 0 {
        None
    } else {
        Some(line)
    }
}

} // verus!

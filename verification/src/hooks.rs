//! What the runtime hooks report when guest code panics or prints a value.

use vstd::prelude::*;
use vstd::string::StringExecFns;

verus! {

/// The tag of a panic raised by the guest's standard library.
pub const PANIC_FROM_RUNTIME: u32 = 0;

/// The tag of a panic raised by the application.
pub const PANIC_FROM_APPLICATION: u32 = 1;

/// The report of a panic: who raised it, then the message.
pub open spec fn spec_panic_report(msg: Seq<char>, tag_id: u32) -> Seq<char> {
    if tag_id == PANIC_FROM_RUNTIME {
        "Roc standard library hit a panic: "@ + msg
    } else {
        "Application hit a panic: "@ + msg
    }
}

/// The report of a debug print: the location in brackets, then the
/// expression, an equals sign and the value.
pub open spec fn spec_dbg_line(loc: Seq<char>, msg: Seq<char>, src: Seq<char>) -> Seq<char> {
    "["@ + loc + "] "@ + src + " = "@ + msg
}

/// Whether `tag_id` is one of the two panic tags the guest uses.
pub fn is_panic_tag(tag_id: u32) -> (r: bool)
    ensures
        r == (tag_id == PANIC_FROM_RUNTIME || tag_id == PANIC_FROM_APPLICATION),
{
    tag_id == PANIC_FROM_RUNTIME || tag_id == PANIC_FROM_APPLICATION
}

/// The text the panic hook reports before it ends the process.
pub fn roc_panic(msg: &str, tag_id: u32) -> (r: String)
    requires
        tag_id == PANIC_FROM_RUNTIME || tag_id == PANIC_FROM_APPLICATION,
    ensures
        r@ == spec_panic_report(msg@, tag_id),
{
    let prefix = if tag_id == PANIC_FROM_RUNTIME {
        "Roc standard library hit a panic: "
    } else {
        "Application hit a panic: "
    };
    prefix.to_owned().concat(msg)
}

/// The line the debug hook prints.
pub fn roc_dbg(loc: &str, msg: &str, src: &str) -> (r: String)
    ensures
        r@ == spec_dbg_line(loc@, msg@, src@),
{
    let mut line = "[".to_owned();
    line.append(loc);
    line.append("] ");
    line.append(src);
    line.append(" = ");
    line.append(msg);
    line
}

} // verus!

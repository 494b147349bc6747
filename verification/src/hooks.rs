//! Hook formatting: user-configured command templates, sent either verbatim
//! or scoped to one container through the protocol's node-selector syntax.

use vstd::prelude::*;

use crate::numfmt::dec_int;
use crate::numfmt::i64_to_dec;

verus! {

/// The command that scopes `template` to the container with id `id`:
/// `[con_id=<id>] <template>`.
pub open spec fn scoped_hook(id: int, template: Seq<char>) -> Seq<char> {
    "[con_id="@ + dec_int(id) + "] "@ + template
}

/// Formats `template` scoped to the container with id `id`, relying on the
/// protocol's node-selector syntax to make the command a no-op if that
/// container no longer exists.
pub fn scoped_hook_command(id: i64, template: &str) -> (r: String)
    ensures
        r@ == scoped_hook(id as int, template@),
{
    let mut s = String::from_str("[con_id=");
    let digits = i64_to_dec(id);
    s.append(digits.as_str());
    s.append("] ");
    s.append(template);
    proof {
        assert(s@ =~= scoped_hook(id as int, template@));
    }
    s
}

} // verus!

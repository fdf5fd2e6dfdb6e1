//! Which paths are absolute.

use vstd::prelude::*;

verus! {

/// A path is absolute exactly when it is a slash and then anything.
pub proof fn law_absolute_paths_begin_with_a_slash(path: &str, r: bool)
    requires
        call_ensures(crate::path::is_absolute, (path,), r),
    ensures
        r <==> exists|rest: Seq<char>| path@ == #[trigger] (seq!['/'] + rest),
{
    if r {
        assert(path@ =~= seq!['/'] + path@.drop_first());
    }
    if exists|rest: Seq<char>| path@ == #[trigger] (seq!['/'] + rest) {
        let rest = choose|rest: Seq<char>| path@ == #[trigger] (seq!['/'] + rest);
        assert((seq!['/'] + rest)[0] == '/');
    }
}

} // verus!

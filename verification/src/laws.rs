//! What holds of the manager over any number of calls, and of every wrapped
//! error.

use crate::error::{display_prefix, error_display, AdbcError};
use crate::manager::reported;
use adbc_core::error::Error;
use vstd::prelude::*;
use vstd::std_specs::convert::FromSpec;

verus! {

/// The option sequence that stands after one `add_option` call for each pair
/// of `added`, made in order on a manager whose sequence was `start`.
pub open spec fn after_adding(
    start: Seq<(Seq<char>, Seq<char>)>,
    added: Seq<(Seq<char>, Seq<char>)>,
) -> Seq<(Seq<char>, Seq<char>)>
    decreases added.len(),
{
    if added.len() == 0 {
        start
    } else {
        after_adding(start.push(added[0]), added.drop_first())
    }
}

/// Any run of `add_option` calls leaves what was there before, followed by
/// exactly the added pairs, in the order of the calls. No pair is dropped or
/// merged, whether or not its key occurred before.
pub proof fn lemma_added_pairs_follow_in_order(
    start: Seq<(Seq<char>, Seq<char>)>,
    added: Seq<(Seq<char>, Seq<char>)>,
)
    ensures
        after_adding(start, added) == start + added,
    decreases added.len(),
{
    if added.len() == 0 {
        assert(start + added =~= start);
    } else {
        lemma_added_pairs_follow_in_order(start.push(added[0]), added.drop_first());
        assert(start.push(added[0]) + added.drop_first() =~= start + added);
    }
}

/// On a new manager, any run of `add_option` calls leaves exactly the added
/// pairs, in the order of the calls, duplicates included.
pub proof fn lemma_new_manager_holds_added_pairs(added: Seq<(Seq<char>, Seq<char>)>)
    ensures
        after_adding(Seq::empty(), added) == added,
{
    lemma_added_pairs_follow_in_order(Seq::empty(), added);
    assert(Seq::<(Seq<char>, Seq<char>)>::empty() + added =~= added);
}

/// Wrapping loses nothing of the driver's error: the cause of the wrapped
/// value is that very error, its display text is the prefix followed by all
/// that the driver's error prints, and a failed answer is reported with
/// exactly this wrapped value.
pub proof fn lemma_wrapping_keeps_the_cause(error: Error)
    ensures
        AdbcError::from_spec(error).cause() == error,
        AdbcError::from_spec(error).display() == display_prefix() + error_display(error),
        reported::<()>(Err(error)) == Err::<(), AdbcError>(AdbcError::from_spec(error)),
{
}

} // verus!

//! The literals that delimit the managed block, and the layout of its lines.

use vstd::prelude::*;

verus! {

/// The line that opens the managed block.
pub const BEGIN_BLOCK: &'static str = "# BEGIN DOCKER HOSTS";

/// The line that closes the managed block.
pub const END_BLOCK: &'static str = "# END DOCKER HOSTS";

/// The file that holds the managed block.
pub const HOSTS_FILE: &'static str = "/etc/hosts";

/// The width, in characters, of the column that holds the IP address.
pub const IP_COLUMN_WIDTH: usize = 16;

/// The two marker lines are different lines, so no line is both.
pub proof fn lemma_markers_differ()
    ensures
        BEGIN_BLOCK@ != END_BLOCK@,
        BEGIN_BLOCK@.len() == 20,
        END_BLOCK@.len() == 18,
{
    reveal_strlit("# BEGIN DOCKER HOSTS");
    reveal_strlit("# END DOCKER HOSTS");
    assert(BEGIN_BLOCK@.len() != END_BLOCK@.len());
}

} // verus!

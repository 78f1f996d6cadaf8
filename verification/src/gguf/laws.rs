//! Laws of the header reader that span several calls.
use vstd::prelude::*;
use crate::gguf::reader::GgufReader;

verus! {

/// The header read law: in a run of readers, each the one before after a
/// reply that file content `f` gives, every reader expects the same end
/// result as the first; starting from `GgufReader::new()`, that is
/// `parse_header(f)`, which `finish` then returns.
pub proof fn honest_run_keeps_outcome(f: Seq<u8>, run: Seq<GgufReader>)
    requires
        run.len() > 0,
        forall|i: int| 0 <= i < run.len() - 1 ==> #[trigger] run[i + 1].outcome(f) == run[i].outcome(f),
    ensures
        run.last().outcome(f) == run[0].outcome(f),
    decreases run.len(),
{
    if run.len() > 1 {
        let shorter = run.drop_last();
        assert forall|i: int| 0 <= i < shorter.len() - 1 implies #[trigger] shorter[i + 1].outcome(f) == shorter[i].outcome(f) by {
            assert(shorter[i + 1] == run[i + 1] && shorter[i] == run[i]);
        }
        honest_run_keeps_outcome(f, shorter);
        let k = run.len() - 2;
        assert(run[k + 1].outcome(f) == run[k].outcome(f));
        assert(shorter.last() == run[k]);
    }
}

} // verus!

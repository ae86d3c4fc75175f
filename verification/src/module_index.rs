//! The module index: the one file that lists the generated modules, written
//! only where that changes it.

use vstd::prelude::*;

verus! {

/// Whether a file that holds `previous`, or is not there, has to be written to
/// hold `content`.
pub open spec fn index_changed(previous: Option<Seq<u8>>, content: Seq<u8>) -> bool {
    previous != Some(content)
}

/// What the file holds once `content` has been written where it had to be.
pub open spec fn index_after(previous: Option<Seq<u8>>, content: Seq<u8>) -> Option<Seq<u8>> {
    if index_changed(previous, content) {
        Some(content)
    } else {
        previous
    }
}

/// What `previous` holds, where it is there.
pub open spec fn bytes_of(previous: Option<&[u8]>) -> Option<Seq<u8>> {
    match previous {
        Some(bytes) => Some(bytes@),
        None => None,
    }
}

/// Whether the module index has to be written: where the file is not there
/// yet, and where what it holds differs from `content`. A file that is left
/// alone keeps its date, and nothing is rebuilt on its account.
pub fn module_index_changed(previous: Option<&[u8]>, content: &[u8]) -> (changed: bool)
    ensures
        changed == index_changed(bytes_of(previous), content@),
{
    match previous {
        None => true,
        Some(bytes) => {
            if bytes.len() != content.len() {
                return true;
            }
            let mut i: usize = 0;
            while i < bytes.len()
                invariant
                    i <= bytes.len(),
                    bytes.len() == content.len(),
                    bytes_of(previous) == Some(bytes@),
                    forall|k: int| 0 <= k < i ==> bytes@[k] == content@[k],
                decreases bytes.len() - i,
            {
                if bytes[i] != content[i] {
                    assert(bytes@[i as int] != content@[i as int]);
                    return true;
                }
                i = i + 1;
            }
            assert(bytes@ =~= content@);
            false
        },
    }
}

/// Writing the same index twice writes it once at most: after the first time
/// the file holds the content, and the second time leaves it alone.
pub proof fn lemma_index_written_once(previous: Option<Seq<u8>>, content: Seq<u8>)
    ensures
        index_after(previous, content) == Some(content),
        !index_changed(index_after(previous, content), content),
        index_after(index_after(previous, content), content) == index_after(previous, content),
{
}

} // verus!

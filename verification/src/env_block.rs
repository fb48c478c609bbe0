//! Environment blocks in the native wide-character layout.
//!
//! A block is a run of entries of the form `name=value`, in UTF-16, each
//! closed by a null unit; one more null unit closes the block. The block
//! proper ends before the first two null units in a row.

use vstd::prelude::*;
use crate::split::{join_with, law_split_is_never_empty, law_split_then_join, split_on};

verus! {

/// Whether the two null units that close a block stand at `i` in `units`.
pub open spec fn closes_block(units: Seq<u16>, i: int) -> bool {
    0 <= i && i + 1 < units.len() && units[i] == 0 && units[i + 1] == 0
}

/// The entries of a block: the runs between its null units, in order.
pub open spec fn split_at_nulls(units: Seq<u16>) -> Seq<Seq<u16>> {
    split_on(units, 0u16)
}

/// The text that `String::from_utf16_lossy` decodes from `units`: UTF-16
/// with U+FFFD in place of each unit that is no part of a valid pair.
pub uninterp spec fn utf16_lossy(units: Seq<u16>) -> Seq<char>;

/// Decodes UTF-16 with `String::from_utf16_lossy`, which never fails: the
/// result is the text that the standard library defines for these units.
#[verifier::external_body]
fn decode_utf16_lossy(units: &[u16]) -> (text: String)
    ensures
        text@ == utf16_lossy(units@),
{
    String::from_utf16_lossy(units)
}

/// The units of an environment block, without the nulls that close it.
#[derive(Clone, Debug)]
pub struct EnvBlock {
    units: Vec<u16>,
}

impl View for EnvBlock {
    type V = Seq<u16>;

    closed spec fn view(&self) -> Seq<u16> {
        self.units@
    }
}

impl EnvBlock {
    /// The block that `raw` starts with: the units before the first two
    /// null units in a row, or all of `raw` where it holds no such pair.
    pub fn from_terminated(raw: &[u16]) -> (block: EnvBlock)
        ensures
            block@.len() <= raw@.len(),
            block@ == raw@.take(block@.len() as int),
            forall|i: int| 0 <= i < block@.len() ==> !closes_block(raw@, i),
            block@.len() < raw@.len() ==> closes_block(raw@, block@.len() as int),
    {
        let mut units: Vec<u16> = Vec::new();
        let mut len: usize = 0;
        while len < raw.len() && !(len + 1 < raw.len() && raw[len] == 0 && raw[len + 1] == 0)
            invariant
                len <= raw@.len(),
                units@ == raw@.take(len as int),
                forall|i: int| 0 <= i < len ==> !closes_block(raw@, i),
            decreases raw@.len() - len,
        {
            units.push(raw[len]);
            assert(raw@.take(len as int).push(raw@[len as int]) == raw@.take(len + 1));
            len = len + 1;
        }
        proof {
            if len < raw@.len() {
                assert(closes_block(raw@, len as int));
            }
        }
        EnvBlock { units }
    }

    /// The units of the block.
    pub fn as_slice(&self) -> (units: &[u16])
        ensures
            units@ == self@,
    {
        self.units.as_slice()
    }

    /// The entries of the block as runs of units: what stands between its
    /// null units, in order. There is at least one run, no run holds a null
    /// unit, and the runs joined with null units are the block.
    pub fn entries(&self) -> (runs: Vec<Vec<u16>>)
        ensures
            runs@.len() == split_at_nulls(self@).len(),
            forall|k: int| 0 <= k < runs@.len() ==> (#[trigger] runs@[k])@ == split_at_nulls(
                self@,
            )[k],
            runs@.len() >= 1,
            forall|k: int, j: int|
                0 <= k < runs@.len() && 0 <= j < runs@[k]@.len() ==> #[trigger] runs@[k]@[j] != 0,
            join_with(Seq::new(runs@.len(), |k: int| runs@[k]@), 0u16) == self@,
    {
        let mut done: Vec<Vec<u16>> = Vec::new();
        let mut current: Vec<u16> = Vec::new();
        let mut i: usize = 0;
        while i < self.units.len()
            invariant
                i <= self.units@.len(),
                split_at_nulls(self.units@.take(i as int)).len() == done@.len() + 1,
                forall|k: int|
                    0 <= k < done@.len() ==> (#[trigger] done@[k])@ == split_at_nulls(
                        self.units@.take(i as int),
                    )[k],
                current@ == split_at_nulls(self.units@.take(i as int)).last(),
            decreases self.units@.len() - i,
        {
            let unit: u16 = self.units[i];
            proof {
                let next = self.units@.take(i + 1);
                assert(next.drop_last() == self.units@.take(i as int));
                assert(next.last() == unit);
            }
            if unit == 0 {
                done.push(current);
                current = Vec::new();
            } else {
                current.push(unit);
            }
            i = i + 1;
        }
        assert(self.units@.take(i as int) == self.units@);
        done.push(current);
        proof {
            law_split_is_never_empty(self.units@, 0u16);
            law_split_then_join(self.units@, 0u16);
            assert(Seq::new(done@.len(), |k: int| done@[k]@) == split_at_nulls(self.units@));
        }
        done
    }

    /// The entries of the block as text, in order, each decoded from
    /// UTF-16 with U+FFFD in place of what is not valid.
    pub fn iter(&self) -> (entries: Vec<String>)
        ensures
            entries@.len() == split_at_nulls(self@).len(),
            forall|k: int| 0 <= k < entries@.len() ==> (#[trigger] entries@[k])@ == utf16_lossy(
                split_at_nulls(self@)[k],
            ),
    {
        let runs: Vec<Vec<u16>> = self.entries();
        let mut entries: Vec<String> = Vec::new();
        let mut k: usize = 0;
        while k < runs.len()
            invariant
                k <= runs@.len(),
                entries@.len() == k,
                runs@.len() == split_at_nulls(self@).len(),
                forall|j: int| 0 <= j < runs@.len() ==> (#[trigger] runs@[j])@ == split_at_nulls(
                    self@,
                )[j],
                forall|j: int| 0 <= j < k ==> (#[trigger] entries@[j])@ == utf16_lossy(
                    split_at_nulls(self@)[j],
                ),
            decreases runs@.len() - k,
        {
            let text: String = decode_utf16_lossy(runs[k].as_slice());
            entries.push(text);
            k = k + 1;
        }
        entries
    }
}

} // verus!

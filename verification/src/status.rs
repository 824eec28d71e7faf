//! The decision recorded for each picture, and how many pictures carry each.

use vstd::prelude::*;
use crate::error::Error;
use crate::text::{str_eq, string_of, chars_of};

verus! {

/// The decision recorded for a picture.
#[derive(Debug, Clone, Copy, PartialEq, Eq, Structural)]
pub enum ImageStatus {
    Unseen,
    Undecided,
    Selected,
    Rejected,
}

impl ImageStatus {
    /// The word that stands for the status in the project file.
    pub open spec fn label(self) -> Seq<char> {
        match self {
            ImageStatus::Unseen => seq!['u', 'n', 's', 'e', 'e', 'n'],
            ImageStatus::Undecided => seq!['u', 'n', 'd', 'e', 'c', 'i', 'd', 'e', 'd'],
            ImageStatus::Selected => seq!['s', 'e', 'l', 'e', 'c', 't', 'e', 'd'],
            ImageStatus::Rejected => seq!['r', 'e', 'j', 'e', 'c', 't', 'e', 'd'],
        }
    }

    /// The word that stands for the status in the project file.
    pub fn as_str(self) -> (r: &'static str)
        ensures
            r@ == self.label(),
    {
        match self {
            ImageStatus::Unseen => {
                proof {
                    reveal_strlit("unseen");
                }
                "unseen"
            },
            ImageStatus::Undecided => {
                proof {
                    reveal_strlit("undecided");
                }
                "undecided"
            },
            ImageStatus::Selected => {
                proof {
                    reveal_strlit("selected");
                }
                "selected"
            },
            ImageStatus::Rejected => {
                proof {
                    reveal_strlit("rejected");
                }
                "rejected"
            },
        }
    }

    /// Reads a status word; any other text is an `InvalidStatus` error that
    /// carries the text.
    pub fn parse(value: &str) -> (r: Result<ImageStatus, Error>)
        ensures
            match r {
                Ok(s) => s.label() == value@,
                Err(e) => (e matches Error::InvalidStatus(m) && m@ == value@) && forall|
                    s: ImageStatus,
                | s.label() != value@,
            },
    {
        let statuses = [
            ImageStatus::Unseen,
            ImageStatus::Undecided,
            ImageStatus::Selected,
            ImageStatus::Rejected,
        ];
        let mut i: usize = 0;
        while i < 4
            invariant
                i <= 4,
                statuses@ == seq![
                    ImageStatus::Unseen,
                    ImageStatus::Undecided,
                    ImageStatus::Selected,
                    ImageStatus::Rejected,
                ],
                forall|j: int| 0 <= j < i ==> statuses@[j].label() != value@,
            decreases 4 - i,
        {
            let s = statuses[i];
            if str_eq(s.as_str(), value) {
                return Ok(s);
            }
            i = i + 1;
        }
        proof {
            assert forall|s: ImageStatus| s.label() != value@ by {
                match s {
                    ImageStatus::Unseen => assert(statuses@[0].label() != value@),
                    ImageStatus::Undecided => assert(statuses@[1].label() != value@),
                    ImageStatus::Selected => assert(statuses@[2].label() != value@),
                    ImageStatus::Rejected => assert(statuses@[3].label() != value@),
                }
            }
        }
        Err(Error::InvalidStatus(string_of(&chars_of(value))))
    }
}

/// A status word reads back as the status that wrote it: no two statuses
/// share a word, so `parse` (whose `Ok` result has the word it was given)
/// turns `as_str(s)` into `s`.
pub proof fn law_status_word_reads_back(a: ImageStatus, b: ImageStatus)
    ensures
        a.label() == b.label() ==> a == b,
{
    if a.label() == b.label() {
        assert(a.label().len() == b.label().len());
        assert(a.label()[0] == b.label()[0]);
        assert(a.label()[2] == b.label()[2]);
    }
}

/// How many pictures carry each status.
#[derive(Debug, Clone, Copy, PartialEq, Eq, Structural)]
pub struct StatusCounts {
    pub unseen: i64,
    pub undecided: i64,
    pub selected: i64,
    pub rejected: i64,
}

impl StatusCounts {
    /// The sum of the four counts.
    pub open spec fn spec_total(self) -> int {
        self.unseen + self.undecided + self.selected + self.rejected
    }

    /// The sum of the four counts.
    pub fn total(self) -> (r: i64)
        requires
            i64::MIN <= self.unseen + self.undecided <= i64::MAX,
            i64::MIN <= self.unseen + self.undecided + self.selected <= i64::MAX,
            i64::MIN <= self.spec_total() <= i64::MAX,
        ensures
            r == self.spec_total(),
    {
        self.unseen + self.undecided + self.selected + self.rejected
    }

    /// The count of one status.
    pub open spec fn count_of(self, s: ImageStatus) -> int {
        match s {
            ImageStatus::Unseen => self.unseen as int,
            ImageStatus::Undecided => self.undecided as int,
            ImageStatus::Selected => self.selected as int,
            ImageStatus::Rejected => self.rejected as int,
        }
    }
}

impl Default for StatusCounts {
    fn default() -> (r: StatusCounts)
        ensures
            r == (StatusCounts { unseen: 0, undecided: 0, selected: 0, rejected: 0 }),
    {
        StatusCounts { unseen: 0, undecided: 0, selected: 0, rejected: 0 }
    }
}

} // verus!

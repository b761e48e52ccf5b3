use vstd::prelude::*;

use vstd::utf8::encode_utf8;

use crate::identity::Identity;

verus! {

/// Number of tally counters a poll reserves; also the most options a poll can hold.
pub const TALLY_SLOTS: usize = 4;

/// Bytes reserved for a poll record when it is created; the record can never
/// grow past them.
pub const POLL_SPACE: usize = 189;

/// Bytes of a poll record that do not depend on its text: type tag, id, the
/// three length prefixes of title, description and options, active flag,
/// tally, owner and end time.
pub const POLL_FIXED_SIZE: usize = 77;

/// One voter's participation in one poll.
///
/// `selected_option` is zero until the voter votes, and then holds the chosen
/// option's index plus one.
#[derive(Clone, Copy, Debug, PartialEq, Eq)]
pub struct UserAccount {
    pub poll_id: u32,
    pub owner: Identity,
    pub selected_option: u32,
    pub date_created: u64,
}

impl UserAccount {
    /// Whether this voter has already voted.
    pub open spec fn has_voted(self) -> bool {
        self.selected_option != 0
    }
}

/// A poll: its metadata and its per-option tally.
#[derive(Debug)]
pub struct PollAccount {
    pub id: u32,
    pub poll_title: String,
    pub poll_description: String,
    pub poll_options: Vec<String>,
    pub is_poll_active: bool,
    pub poll_selected_option: Vec<u16>,
    pub poll_owner: Identity,
    pub poll_end_timestamp: u64,
}

/// The mathematical content of a [`PollAccount`].
pub struct PollView {
    pub id: u32,
    pub title: Seq<char>,
    pub description: Seq<char>,
    pub options: Seq<Seq<char>>,
    pub is_active: bool,
    pub tally: Seq<u16>,
    pub owner: Identity,
    pub end_timestamp: u64,
}

/// The text of each label, in order.
pub open spec fn labels_view(labels: Seq<String>) -> Seq<Seq<char>> {
    labels.map_values(|s: String| s@)
}

/// A tally of `n` zero counters.
pub open spec fn zero_tally(n: nat) -> Seq<u16> {
    Seq::new(n, |i: int| 0u16)
}

/// Number of bytes in the UTF-8 encoding of `s`.
pub open spec fn byte_len(s: Seq<char>) -> nat {
    encode_utf8(s).len()
}

/// Stored size of a list of labels, not counting the list's own length
/// prefix: each label takes a four-byte length and its bytes.
pub open spec fn labels_size(labels: Seq<Seq<char>>) -> nat
    decreases labels.len(),
{
    if labels.len() == 0 {
        0
    } else {
        labels_size(labels.drop_last()) + 4 + byte_len(labels.last())
    }
}

/// Stored size of a poll record with the given text: an eight-byte type tag,
/// the id, title and description with four-byte length prefixes, the options
/// as a length-prefixed list, the active flag, the length-prefixed tally of
/// two-byte counters, the owner's key and the end time.
pub open spec fn poll_record_size(title: Seq<char>, description: Seq<char>, options: Seq<Seq<char>>) -> nat {
    (8 + 4 + (4 + byte_len(title)) + (4 + byte_len(description)) + (4 + labels_size(options)) + 1 + (4
        + 2 * TALLY_SLOTS) + 32 + 8) as nat
}

/// Whether a poll with this text fits its record: no more options than tally
/// counters, and no more bytes than the reserved space.
pub open spec fn poll_fits(title: Seq<char>, description: Seq<char>, options: Seq<Seq<char>>) -> bool {
    &&& options.len() <= TALLY_SLOTS
    &&& poll_record_size(title, description, options) <= POLL_SPACE
}

/// The labels of a prefix take no more space than the whole list.
proof fn lemma_labels_size_prefix(labels: Seq<Seq<char>>, i: int)
    requires
        0 <= i <= labels.len(),
    ensures
        labels_size(labels.take(i)) <= labels_size(labels),
    decreases labels.len(),
{
    if i < labels.len() {
        assert(labels.drop_last().take(i) =~= labels.take(i));
        lemma_labels_size_prefix(labels.drop_last(), i);
    } else {
        assert(labels.take(i) =~= labels);
    }
}

/// Whether a poll with this title, description and options fits its record.
pub fn poll_record_fits(title: &String, description: &String, options: &Vec<String>) -> (r: bool)
    ensures
        r == poll_fits(title@, description@, labels_view(options@)),
{
    let ghost labels = labels_view(options@);
    if options.len() > TALLY_SLOTS {
        return false;
    }
    let mut used: usize = POLL_FIXED_SIZE;
    let t = title.as_str().as_bytes().len();
    if t > POLL_SPACE - used {
        proof {
            lemma_labels_size_prefix(labels, 0);
        }
        return false;
    }
    used = used + t;
    let d = description.as_str().as_bytes().len();
    if d > POLL_SPACE - used {
        proof {
            lemma_labels_size_prefix(labels, 0);
        }
        return false;
    }
    used = used + d;
    assert(labels.take(0) =~= Seq::<Seq<char>>::empty());
    let mut i: usize = 0;
    while i < options.len()
        invariant
            i <= options.len(),
            labels == labels_view(options@),
            used <= POLL_SPACE,
            used == POLL_FIXED_SIZE + byte_len(title@) + byte_len(description@) + labels_size(
                labels.take(i as int),
            ),
        decreases options.len() - i,
    {
        let n = options[i].as_str().as_bytes().len();
        assert(labels.take(i + 1).drop_last() =~= labels.take(i as int));
        assert(labels.take(i + 1).last() == options@[i as int]@);
        if n > POLL_SPACE - used || n + 4 > POLL_SPACE - used {
            proof {
                lemma_labels_size_prefix(labels, i + 1);
            }
            return false;
        }
        used = used + 4 + n;
        i = i + 1;
    }
    assert(labels.take(options.len() as int) =~= labels);
    true
}

impl PollView {
    /// The tally holds the reserved number of counters, and there is a counter
    /// for every option.
    pub open spec fn wf(self) -> bool {
        &&& self.tally.len() == TALLY_SLOTS
        &&& self.options.len() <= TALLY_SLOTS
    }

    /// Whether `index` names one of the poll's options.
    pub open spec fn is_option(self, index: u32) -> bool {
        index < self.options.len()
    }

    /// The poll after one more vote for option `index`.
    pub open spec fn with_vote(self, index: u32) -> PollView {
        PollView { tally: self.tally.update(index as int, (self.tally[index as int] + 1) as u16), ..self }
    }
}

impl View for PollAccount {
    type V = PollView;

    open spec fn view(&self) -> PollView {
        PollView {
            id: self.id,
            title: self.poll_title@,
            description: self.poll_description@,
            options: labels_view(self.poll_options@),
            is_active: self.is_poll_active,
            tally: self.poll_selected_option@,
            owner: self.poll_owner,
            end_timestamp: self.poll_end_timestamp,
        }
    }
}

impl PollAccount {
    /// Whether the tally has the reserved number of counters and there are no
    /// more options than counters.
    pub fn is_well_formed(&self) -> (r: bool)
        ensures
            r == self@.wf(),
    {
        self.poll_selected_option.len() == TALLY_SLOTS && self.poll_options.len() <= TALLY_SLOTS
    }

    /// A zeroed poll record, as the host allocates it before creation fills it in.
    pub fn empty() -> (r: PollAccount)
        ensures
            r@.id == 0,
            r@.title.len() == 0,
            r@.description.len() == 0,
            r@.options.len() == 0,
            !r@.is_active,
            r@.tally.len() == 0,
            r@.owner.bytes@ == Seq::new(32, |i: int| 0u8),
            r@.end_timestamp == 0,
    {
        PollAccount {
            id: 0,
            poll_title: String::new(),
            poll_description: String::new(),
            poll_options: Vec::new(),
            is_poll_active: false,
            poll_selected_option: Vec::new(),
            poll_owner: Identity::new([0u8; 32]),
            poll_end_timestamp: 0,
        }
    }
}

/// Why a vote is refused.
#[derive(Clone, Copy, Debug, PartialEq, Eq)]
pub enum Errors {
    /// The option index does not name one of the poll's options.
    OptionOutOfRange,
    /// The poll no longer accepts votes.
    PollEndedError,
    /// The voter has already voted in this poll.
    AlreadyVoted,
}

impl Errors {
    /// The message shown for this error.
    pub fn message(&self) -> (r: &'static str)
        ensures
            *self == Errors::OptionOutOfRange ==> r@ == "Invalid option"@,
            *self == Errors::PollEndedError ==> r@ == "Poll not active"@,
            *self == Errors::AlreadyVoted ==> r@ == "You have already voted"@,
    {
        match self {
            Errors::OptionOutOfRange => "Invalid option",
            Errors::PollEndedError => "Poll not active",
            Errors::AlreadyVoted => "You have already voted",
        }
    }
}

} // verus!

//! Decisions of the desktop shell: which leftovers to clean up, what a second
//! instance was started for, and when a link in the clipboard opens the window.

use vstd::prelude::*;

verus! {

/// How the names of working directories begin.
pub const WORK_DIR_PREFIX: &'static str = ".sendme-";

/// How a deep link begins.
pub const DEEP_LINK_PREFIX: &'static str = "sendme://";

/// The action of a deep link that hands over a ticket.
pub const RECEIVE_ACTION: &'static str = "receive";

/// Whether `text` begins with `prefix`.
pub fn text_starts_with(text: &str, prefix: &str) -> (found: bool)
    ensures
        found == prefix@.is_prefix_of(text@),
{
    let len: usize = prefix.unicode_len();
    if text.unicode_len() < len {
        return false;
    }
    let mut i: usize = 0;
    while i < len
        invariant
            i <= len <= text@.len(),
            len == prefix@.len(),
            forall|j: int| 0 <= j < i ==> prefix@[j] == text@[j],
        decreases len - i,
    {
        if text.get_char(i) != prefix.get_char(i) {
            assert(text@.subrange(0, len as int)[i as int] == text@[i as int]);
            return false;
        }
        i += 1;
    }
    assert(prefix@ =~= text@.subrange(0, len as int));
    true
}

/// Whether a directory entry is left over from an earlier run: a directory with
/// the name of a working directory.
pub fn is_orphaned_entry(name: &str, is_dir: bool) -> (orphaned: bool)
    ensures
        orphaned == (WORK_DIR_PREFIX@.is_prefix_of(name@) && is_dir),
{
    text_starts_with(name, WORK_DIR_PREFIX) && is_dir
}

/// The place of the first deep link among the arguments of a second instance.
pub fn first_deep_link(args: &[String]) -> (found: Option<usize>)
    ensures
        match found {
            Some(i) => {
                &&& i < args@.len()
                &&& DEEP_LINK_PREFIX@.is_prefix_of(args@[i as int]@)
                &&& forall|j: int|
                    0 <= j < i ==> !DEEP_LINK_PREFIX@.is_prefix_of(#[trigger] args@[j]@)
            },
            None => forall|j: int|
                0 <= j < args@.len() ==> !DEEP_LINK_PREFIX@.is_prefix_of(#[trigger] args@[j]@),
        },
{
    let mut i: usize = 0;
    while i < args.len()
        invariant
            i <= args.len(),
            forall|j: int| 0 <= j < i ==> !DEEP_LINK_PREFIX@.is_prefix_of(#[trigger] args@[j]@),
        decreases args.len() - i,
    {
        if text_starts_with(args[i].as_str(), DEEP_LINK_PREFIX) {
            return Some(i);
        }
        i += 1;
    }
    None
}

/// What a second instance was started for.
#[derive(Debug, Clone, Copy, PartialEq, Eq, Structural)]
pub enum SecondInstance {
    /// The deep link at this place among the arguments.
    Link(usize),
    /// A path among the arguments, if there is one.
    Path,
}

/// What a second instance was started for. Where links arrive as arguments, the
/// first link comes before any path.
pub fn second_instance_call(args: &[String], links_are_arguments: bool) -> (call: SecondInstance)
    ensures
        match call {
            SecondInstance::Link(i) => {
                &&& links_are_arguments
                &&& i < args@.len()
                &&& DEEP_LINK_PREFIX@.is_prefix_of(args@[i as int]@)
                &&& forall|j: int|
                    0 <= j < i ==> !DEEP_LINK_PREFIX@.is_prefix_of(#[trigger] args@[j]@)
            },
            SecondInstance::Path => links_are_arguments ==> forall|j: int|
                0 <= j < args@.len() ==> !DEEP_LINK_PREFIX@.is_prefix_of(#[trigger] args@[j]@),
        },
{
    if !links_are_arguments {
        return SecondInstance::Path;
    }
    match first_deep_link(args) {
        Some(i) => SecondInstance::Link(i),
        None => SecondInstance::Path,
    }
}

/// The part of a link before its query, or the whole link where it has none. The
/// report of a link that could not be read shows no more of it.
pub fn url_before_query(url: &str) -> (part: String)
    ensures
        part@.is_prefix_of(url@),
        !part@.contains('?'),
        part@.len() < url@.len() ==> url@[part@.len() as int] == '?',
{
    let len: usize = url.unicode_len();
    let mut i: usize = 0;
    while i < len && url.get_char(i) != '?'
        invariant
            i <= len == url@.len(),
            forall|j: int| 0 <= j < i ==> url@[j] != '?',
        decreases len - i,
    {
        i += 1;
    }
    let part: String = url.substring_char(0, i).to_owned();
    assert(part@ =~= url@.subrange(0, i as int));
    part
}

/// What the shell knows of the share that is running; `S` describes the share.
pub struct AppState<S> {
    pub current_share: Option<S>,
    pub is_share_starting: bool,
}

/// The state at start: nothing is shared.
pub fn app_state_initial<S>() -> (state: AppState<S>)
    ensures
        state.current_share is None,
        !state.is_share_starting,
{
    AppState { current_share: None, is_share_starting: false }
}

impl<S> AppState<S> {
    /// Whether a share is running or about to.
    pub fn is_sharing(&self) -> (sharing: bool)
        ensures
            sharing == (self.current_share is Some || self.is_share_starting),
    {
        self.current_share.is_some() || self.is_share_starting
    }
}

/// Whether a link found in the clipboard opens the window: it hands over a ticket,
/// and nothing is being shared.
pub fn opens_window(is_sharing: bool, action: &str, has_ticket: bool) -> (opens: bool)
    ensures
        opens == (!is_sharing && action@ == RECEIVE_ACTION@ && has_ticket),
{
    let receives: bool = text_starts_with(action, RECEIVE_ACTION) && text_starts_with(
        RECEIVE_ACTION,
        action,
    );
    proof {
        if receives {
            assert(action@ =~= RECEIVE_ACTION@);
        } else if action@ == RECEIVE_ACTION@ {
            assert(action@.subrange(0, action@.len() as int) =~= action@);
        }
    }
    !is_sharing && receives && has_ticket
}

/// Whether a character is white space: whether it has the Unicode property
/// `White_Space`.
pub open spec fn white_space(c: char) -> bool {
    let code = c as u32;
    ||| 0x09 <= code <= 0x0d
    ||| code == 0x20
    ||| code == 0x85
    ||| code == 0xa0
    ||| code == 0x1680
    ||| 0x2000 <= code <= 0x200a
    ||| code == 0x2028
    ||| code == 0x2029
    ||| code == 0x202f
    ||| code == 0x205f
    ||| code == 0x3000
}

/// Whether `part` is `text` without the white space at its ends: what is left out
/// is white space, and `part` neither begins nor ends with any.
pub open spec fn is_trimmed(text: Seq<char>, part: Seq<char>) -> bool {
    &&& exists|i: int, j: int|
        0 <= i <= j <= text.len() && part == #[trigger] text.subrange(i, j) && (forall|k: int|
            0 <= k < i || j <= k < text.len() ==> white_space(text[k]))
    &&& part.len() > 0 ==> !white_space(part[0]) && !white_space(part.last())
}

/// `str::trim` takes the white space off both ends of a text and nothing else; white
/// space is what has the Unicode property `White_Space`.
pub assume_specification[ str::trim ](text: &str) -> (trimmed: &str)
    ensures
        is_trimmed(text@, trimmed@),
;

/// A text has one trimmed form.
pub proof fn trimmed_form_is_unique(text: Seq<char>, a: Seq<char>, b: Seq<char>)
    requires
        is_trimmed(text, a),
        is_trimmed(text, b),
    ensures
        a == b,
{
    let (i, j) = choose|i: int, j: int|
        0 <= i <= j <= text.len() && a == #[trigger] text.subrange(i, j) && (forall|k: int|
            0 <= k < i || j <= k < text.len() ==> white_space(text[k]));
    let (m, n) = choose|m: int, n: int|
        0 <= m <= n <= text.len() && b == #[trigger] text.subrange(m, n) && (forall|k: int|
            0 <= k < m || n <= k < text.len() ==> white_space(text[k]));
    if i < j {
        assert(a[0] == text[i] && a.last() == text[j - 1]);
    }
    if m < n {
        assert(b[0] == text[m] && b.last() == text[n - 1]);
    }
    if i == j || m == n {
        assert(a =~= b);
    }
}

/// Every cut that takes white space and nothing else off the ends of a text, and leaves
/// none there, gives its trimmed form; and of a text that is all white space nothing is
/// left.
pub proof fn what_trimming_leaves(text: Seq<char>, i: int, j: int)
    requires
        0 <= i <= j <= text.len(),
        forall|k: int| 0 <= k < i || j <= k < text.len() ==> white_space(text[k]),
        i < j ==> !white_space(text[i]) && !white_space(text[j - 1]),
    ensures
        is_trimmed(text, text.subrange(i, j)),
        i == j ==> is_trimmed(text, Seq::<char>::empty()),
{
    let part = text.subrange(i, j);
    if i < j {
        assert(part[0] == text[i] && part.last() == text[j - 1]);
    } else {
        assert(part =~= Seq::<char>::empty());
    }
}

/// What the clipboard held when it was last looked at.
pub struct ClipboardWatcher {
    pub last: Option<String>,
}

impl View for ClipboardWatcher {
    type V = Option<Seq<char>>;

    open spec fn view(&self) -> Option<Seq<char>> {
        match self.last {
            Some(text) => Some(text@),
            None => None,
        }
    }
}

impl ClipboardWatcher {
    /// A watcher that has seen nothing.
    pub fn new() -> (watcher: ClipboardWatcher)
        ensures
            watcher@ is None,
    {
        ClipboardWatcher { last: None }
    }

    /// Looks at a text without white space at its ends. Gives it back where it is
    /// not empty and not what was there before; an empty text is forgotten.
    pub fn observe_trimmed(&mut self, trimmed: &str) -> (news: Option<String>)
        ensures
            final(self)@ == if trimmed@.len() == 0 {
                None
            } else {
                Some(trimmed@)
            },
            news is Some <==> (trimmed@.len() > 0 && old(self)@ != Some(trimmed@)),
            news is Some ==> news->Some_0@ == trimmed@,
    {
        if trimmed.unicode_len() == 0 {
            self.last = None;
            return None;
        }
        let text: String = trimmed.to_owned();
        let seen: bool = match &self.last {
            Some(last) => *last == text,
            None => false,
        };
        if seen {
            None
        } else {
            self.last = Some(text.clone());
            Some(text)
        }
    }

    /// Looks at what the clipboard holds now.
    pub fn observe(&mut self, text: &str) -> (news: Option<String>)
        ensures
            exists|trimmed: Seq<char>|
                #![trigger is_trimmed(text@, trimmed)]
                {
                    &&& is_trimmed(text@, trimmed)
                    &&& final(self)@ == if trimmed.len() == 0 {
                        None
                    } else {
                        Some(trimmed)
                    }
                    &&& news is Some <==> (trimmed.len() > 0 && old(self)@ != Some(trimmed))
                    &&& news is Some ==> news->Some_0@ == trimmed
                },
    {
        let trimmed = text.trim();
        assert(is_trimmed(text@, trimmed@));
        self.observe_trimmed(trimmed)
    }
}

} // verus!

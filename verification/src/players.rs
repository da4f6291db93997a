//! The players online, as the server's console reports them.
use vstd::prelude::*;

use crate::text::{
    chars_of, contains_chars, contains_seq, find_from, first_occurrence, lemma_first_occurrence,
    substring,
};

verus! {

pub open spec fn is_ascii_digit(c: char) -> bool {
    '0' <= c && c <= '9'
}

/// The end of the run of ASCII digits in `s` that starts at `i`.
pub open spec fn digit_run_end(s: Seq<char>, i: int) -> int
    decreases s.len() - i,
{
    if i < 0 || i >= s.len() || !is_ascii_digit(s[i]) {
        i
    } else {
        digit_run_end(s, i + 1)
    }
}

/// The text that precedes a player's id on the console.
pub open spec fn xuid_marker() -> Seq<char> {
    seq!['x', 'u', 'i', 'd', ':', ' ']
}

/// The id that follows the first `"xuid: "` of a console line: the run of
/// ASCII digits right after it (possibly empty); `None` where the line has no
/// `"xuid: "`.
pub open spec fn xuid_of(line: Seq<char>) -> Option<Seq<char>> {
    match first_occurrence(line, xuid_marker()) {
        Some(k) => Some(line.subrange(k + 6, digit_run_end(line, k + 6))),
        None => None,
    }
}

/// Reads the player id out of a console line, as `xuid_of` says.
pub fn parse_xuid(line: &str) -> (r: Option<String>)
    ensures
        r matches Some(x) ==> xuid_of(line@) == Some(x@),
        r is None ==> xuid_of(line@) is None,
        r matches Some(x) ==> forall|i: int| 0 <= i < x@.len() ==> is_ascii_digit(#[trigger] x@[i]),
{
    let hay = chars_of(line);
    let marker = chars_of("xuid: ");
    proof {
        reveal_strlit("xuid: ");
        assert(marker@ =~= xuid_marker());
        assert(xuid_marker().len() == 6);
        lemma_first_occurrence(hay@, marker@);
    }
    match find_from(&hay, &marker, 0) {
        None => None,
        Some(k) => {
            assert(k + 6 <= hay@.len()) by {
                assert(first_occurrence(hay@, marker@) == Some(k as int));
                assert(crate::text::occurs_at(hay@, marker@, k as int));
            }
            let n = hay.len();
            let start = k + 6;
            let mut end = start;
            while end < hay.len() && '0' <= hay[end] && hay[end] <= '9'
                invariant
                    start <= end <= hay@.len(),
                    digit_run_end(hay@, start as int) == digit_run_end(hay@, end as int),
                    forall|j: int| start <= j < end ==> is_ascii_digit(#[trigger] hay@[j]),
                decreases hay.len() - end,
            {
                end = end + 1;
            }
            Some(substring(line, start, end))
        },
    }
}

pub open spec fn connected_marker() -> Seq<char> {
    seq!['P', 'l', 'a', 'y', 'e', 'r', ' ', 'c', 'o', 'n', 'n', 'e', 'c', 't', 'e', 'd', ':']
}

pub open spec fn disconnected_marker() -> Seq<char> {
    seq![
        'P', 'l', 'a', 'y', 'e', 'r', ' ', 'd', 'i', 's', 'c', 'o', 'n', 'n', 'e', 'c', 't',
        'e', 'd', ':'
    ]
}

/// What a console line says of the players: `Some((true, id))` where a player
/// joined, `Some((false, id))` where one left, `None` where it says neither.
/// A line that holds both markers counts as a join.
pub open spec fn player_line_event(line: Seq<char>) -> Option<(bool, Seq<char>)> {
    if (contains_seq(line, connected_marker()) || contains_seq(line, disconnected_marker()))
        && xuid_of(line) is Some {
        Some((contains_seq(line, connected_marker()), xuid_of(line)->0))
    } else {
        None
    }
}

/// The players online after an event.
pub open spec fn apply_player_event(
    online: Set<Seq<char>>,
    event: Option<(bool, Seq<char>)>,
) -> Set<Seq<char>> {
    match event {
        Some((true, id)) => online.insert(id),
        Some((false, id)) => online.remove(id),
        None => online,
    }
}

/// A change of the players online.
pub enum PlayerEvent {
    Joined(String),
    Left(String),
}

impl PlayerEvent {
    pub open spec fn spec_pair(self) -> (bool, Seq<char>) {
        match self {
            PlayerEvent::Joined(id) => (true, id@),
            PlayerEvent::Left(id) => (false, id@),
        }
    }
}

/// The set of players online, by id.
pub struct PlayersOnline {
    ids: Vec<String>,
}

impl View for PlayersOnline {
    type V = Set<Seq<char>>;

    closed spec fn view(&self) -> Set<Seq<char>> {
        self.id_seq().to_set()
    }
}

impl PlayersOnline {
    closed spec fn id_seq(&self) -> Seq<Seq<char>> {
        self.ids@.map_values(|s: String| s@)
    }

    #[verifier::type_invariant]
    closed spec fn wf(&self) -> bool {
        self.id_seq().no_duplicates()
    }

    /// No player online.
    pub fn new() -> (r: Self)
        ensures
            r@ == Set::<Seq<char>>::empty(),
    {
        let r = PlayersOnline { ids: Vec::new() };
        assert(r.id_seq() =~= Seq::<Seq<char>>::empty());
        assert(r@ =~= Set::<Seq<char>>::empty());
        r
    }

    fn index_of(&self, id: &str) -> (r: Option<usize>)
        ensures
            r matches Some(i) ==> i < self.ids@.len() && self.id_seq()[i as int] == id@,
            r is None ==> !self@.contains(id@),
    {
        let mut i: usize = 0;
        while i < self.ids.len()
            invariant
                i <= self.ids@.len(),
                forall|j: int| 0 <= j < i ==> self.id_seq()[j] != id@,
            decreases self.ids.len() - i,
        {
            if self.ids[i].as_str().to_owned() == id.to_owned() {
                return Some(i);
            }
            i = i + 1;
        }
        proof {
            if self@.contains(id@) {
                let k = choose|k: int| 0 <= k < self.id_seq().len() && self.id_seq()[k] == id@;
                assert(self.id_seq()[k] == id@);
            }
        }
        None
    }

    /// Whether the player `id` is online.
    pub fn contains(&self, id: &str) -> (b: bool)
        ensures
            b == self@.contains(id@),
    {
        match self.index_of(id) {
            Some(i) => {
                assert(self.id_seq().contains(self.id_seq()[i as int]));
                true
            },
            None => false,
        }
    }

    /// Whether nobody is online.
    pub fn is_empty(&self) -> (b: bool)
        ensures
            b == (self@ == Set::<Seq<char>>::empty()),
    {
        if self.ids.len() == 0 {
            assert(self.id_seq() =~= Seq::<Seq<char>>::empty());
            assert(self@ =~= Set::<Seq<char>>::empty());
            true
        } else {
            assert(self@.contains(self.id_seq()[0]));
            false
        }
    }

    /// The number of players online.
    pub fn count(&self) -> (n: usize)
        ensures
            n == self@.len(),
    {
        proof {
            use_type_invariant(self);
            self.id_seq().unique_seq_to_set();
        }
        self.ids.len()
    }

    /// The player `id` is now online.
    pub fn insert(&mut self, id: String)
        ensures
            final(self)@ == old(self)@.insert(id@),
    {
        proof {
            use_type_invariant(&*self);
        }
        if self.index_of(id.as_str()).is_some() {
            proof {
                let i = choose|i: int| 0 <= i < self.ids@.len() && self.id_seq()[i] == id@;
                assert(self@.contains(id@)) by {
                    assert(self.id_seq().contains(self.id_seq()[i]));
                }
                assert(self@.insert(id@) =~= self@);
            }
            return ;
        }
        let ghost old_seq = self.id_seq();
        let mut ids = Vec::new();
        std::mem::swap(&mut ids, &mut self.ids);
        ids.push(id);
        let ghost new_seq = ids@.map_values(|s: String| s@);
        assert(new_seq =~= old_seq.push(id@));
        assert(new_seq.to_set() =~= old_seq.to_set().insert(id@)) by {
            assert forall|x: Seq<char>| new_seq.to_set().contains(x) implies old_seq.to_set().insert(
                id@,
            ).contains(x) by {
                let k = choose|k: int| 0 <= k < new_seq.len() && new_seq[k] == x;
                if k < old_seq.len() {
                    assert(old_seq[k] == x);
                }
            }
            assert forall|x: Seq<char>| old_seq.to_set().insert(id@).contains(x) implies new_seq.to_set().contains(x) by {
                if x == id@ {
                    assert(new_seq[old_seq.len() as int] == x);
                } else {
                    let k = choose|k: int| 0 <= k < old_seq.len() && old_seq[k] == x;
                    assert(new_seq[k] == x);
                }
            }
        }
        assert(new_seq.no_duplicates()) by {
            assert forall|a: int, b: int|
                0 <= a < new_seq.len() && 0 <= b < new_seq.len() && a != b implies new_seq[a]
                != new_seq[b] by {
                if a < old_seq.len() && b < old_seq.len() {
                } else if a == old_seq.len() {
                    assert(old_seq.contains(old_seq[b]));
                } else {
                    assert(old_seq.contains(old_seq[a]));
                }
            }
        }
        self.ids = ids;
    }

    /// The player `id` is now offline.
    pub fn remove(&mut self, id: &str)
        ensures
            final(self)@ == old(self)@.remove(id@),
    {
        proof {
            use_type_invariant(&*self);
        }
        match self.index_of(id) {
            None => {
                assert(self@.remove(id@) =~= self@);
            },
            Some(i) => {
                let ghost old_seq = self.id_seq();
                let mut ids = Vec::new();
                std::mem::swap(&mut ids, &mut self.ids);
                ids.remove(i);
                let ghost new_seq = ids@.map_values(|s: String| s@);
                assert(new_seq =~= old_seq.remove(i as int));
                assert(new_seq.no_duplicates()) by {
                    assert forall|a: int, b: int|
                        0 <= a < new_seq.len() && 0 <= b < new_seq.len() && a != b implies new_seq[a]
                        != new_seq[b] by {
                        let a2 = if a < i { a } else { a + 1 };
                        let b2 = if b < i { b } else { b + 1 };
                        assert(new_seq[a] == old_seq[a2]);
                        assert(new_seq[b] == old_seq[b2]);
                    }
                }
                assert(new_seq.to_set() =~= old_seq.to_set().remove(id@)) by {
                    assert forall|x: Seq<char>| new_seq.to_set().contains(x) implies old_seq.to_set().remove(
                        id@,
                    ).contains(x) by {
                        let k = choose|k: int| 0 <= k < new_seq.len() && new_seq[k] == x;
                        let k2 = if k < i { k } else { k + 1 };
                        assert(old_seq[k2] == x);
                        assert(k2 != i);
                    }
                    assert forall|x: Seq<char>| old_seq.to_set().remove(id@).contains(x) implies new_seq.to_set().contains(x) by {
                        let k = choose|k: int| 0 <= k < old_seq.len() && old_seq[k] == x;
                        assert(k != i);
                        if k < i {
                            assert(new_seq[k] == x);
                        } else {
                            assert(new_seq[k - 1] == x);
                        }
                    }
                }
                self.ids = ids;
            },
        }
    }

    /// Updates the players online from one console line and says what changed,
    /// as `player_line_event` reads the line.
    pub fn observe_line(&mut self, line: &str) -> (ev: Option<PlayerEvent>)
        ensures
            ev matches Some(e) ==> player_line_event(line@) == Some(e.spec_pair()),
            ev is None ==> player_line_event(line@) is None,
            final(self)@ == apply_player_event(old(self)@, player_line_event(line@)),
    {
        let hay = chars_of(line);
        let joined = chars_of("Player connected:");
        let left = chars_of("Player disconnected:");
        proof {
            reveal_strlit("Player connected:");
            reveal_strlit("Player disconnected:");
            assert(joined@ =~= connected_marker());
            assert(left@ =~= disconnected_marker());
        }
        let is_join = contains_chars(&hay, &joined);
        if !is_join && !contains_chars(&hay, &left) {
            return None;
        }
        match parse_xuid(line) {
            None => None,
            Some(id) => {
                if is_join {
                    let copy = id.as_str().to_owned();
                    self.insert(copy);
                    Some(PlayerEvent::Joined(id))
                } else {
                    self.remove(id.as_str());
                    Some(PlayerEvent::Left(id))
                }
            },
        }
    }
}

/// A player who joins and then leaves is offline afterwards, whatever the
/// set of players online was before.
pub proof fn law_join_then_leave(online: Set<Seq<char>>, join_line: Seq<char>, leave_line: Seq<char>, id: Seq<char>)
    requires
        player_line_event(join_line) == Some((true, id)),
        player_line_event(leave_line) == Some((false, id)),
    ensures
        apply_player_event(apply_player_event(online, player_line_event(join_line)), player_line_event(leave_line)) == online.remove(id),
        !apply_player_event(apply_player_event(online, player_line_event(join_line)), player_line_event(leave_line)).contains(id),
{
    assert(online.insert(id).remove(id) =~= online.remove(id));
}

/// A line that reports a join puts the player online; one that reports a
/// leave takes the player offline; any other line changes nothing.
pub proof fn law_player_lines(online: Set<Seq<char>>, line: Seq<char>)
    ensures
        player_line_event(line) matches Some((true, id)) ==> apply_player_event(online, player_line_event(line)).contains(id),
        player_line_event(line) matches Some((false, id)) ==> !apply_player_event(online, player_line_event(line)).contains(id),
        player_line_event(line) is None ==> apply_player_event(online, player_line_event(line)) == online,
        player_line_event(line) matches Some((j, id)) ==> forall|other: Seq<char>| other != id ==> (apply_player_event(online, player_line_event(line)).contains(other) == online.contains(other)),
{
}

/// The players online after a run of console lines, from `start`.
pub open spec fn online_after(start: Set<Seq<char>>, lines: Seq<Seq<char>>) -> Set<Seq<char>>
    decreases lines.len(),
{
    if lines.len() == 0 {
        start
    } else {
        apply_player_event(online_after(start, lines.drop_last()), player_line_event(lines.last()))
    }
}

/// The line reports a join or a leave of the player `id`.
pub open spec fn mentions(line: Seq<char>, id: Seq<char>) -> bool {
    player_line_event(line) matches Some(p) && p.1 == id
}

/// The last line of `lines` that mentions `id` is at `i` and reports a join.
pub open spec fn joined_last_at(lines: Seq<Seq<char>>, id: Seq<char>, i: int) -> bool {
    &&& 0 <= i < lines.len()
    &&& player_line_event(lines[i]) == Some((true, id))
    &&& forall|j: int| i < j < lines.len() ==> !mentions(#[trigger] lines[j], id)
}

/// From nobody online, after a run of console lines, a player is online
/// exactly when the last line that mentions the player reports a join.
pub proof fn law_online_after_lines(lines: Seq<Seq<char>>, id: Seq<char>)
    ensures
        online_after(Set::empty(), lines).contains(id) <==> exists|i: int| joined_last_at(lines, id, i),
    decreases lines.len(),
{
    if lines.len() > 0 {
        let d = lines.drop_last();
        let l = lines.last();
        law_online_after_lines(d, id);
        let n = lines.len() - 1;
        if mentions(l, id) {
            if player_line_event(l) == Some((true, id)) {
                assert(joined_last_at(lines, id, n));
            } else {
                assert forall|i: int| !joined_last_at(lines, id, i) by {
                    if 0 <= i < n {
                        assert(mentions(lines[n], id));
                    }
                }
            }
        } else {
            assert(online_after(Set::empty(), lines).contains(id) == online_after(Set::empty(), d).contains(id));
            if exists|i: int| joined_last_at(d, id, i) {
                let i = choose|i: int| joined_last_at(d, id, i);
                assert forall|j: int| i < j < lines.len() implies !mentions(#[trigger] lines[j], id) by {
                    if j < n {
                        assert(lines[j] == d[j]);
                    }
                }
                assert(joined_last_at(lines, id, i));
            }
            if exists|i: int| joined_last_at(lines, id, i) {
                let i = choose|i: int| joined_last_at(lines, id, i);
                assert(i != n);
                assert forall|j: int| i < j < d.len() implies !mentions(#[trigger] d[j], id) by {
                    assert(lines[j] == d[j]);
                }
                assert(joined_last_at(d, id, i));
            }
        }
    }
}

} // verus!

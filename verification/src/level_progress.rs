//! Which levels the player has completed, which are open, and the names of
//! the levels. Levels open one after another: level 0 is always open, and
//! completing a level opens the next one.
use vstd::prelude::*;

verus! {

/// How a level stands for the player.
#[derive(Clone, Copy, Debug, PartialEq, Eq, Structural)]
pub enum LevelState {
    Locked,
    Unlocked,
    Done,
}

/// A set of level indices, each held once.
pub struct LevelSet {
    levels: Vec<usize>,
}

impl LevelSet {
    #[verifier::type_invariant]
    spec fn distinct(&self) -> bool {
        self.levels@.no_duplicates()
    }

    pub closed spec fn view(&self) -> Set<usize> {
        self.levels@.to_set()
    }

    pub fn new() -> (s: LevelSet)
        ensures
            s@ == Set::<usize>::empty(),
    {
        let s = LevelSet { levels: Vec::new() };
        assert(s@ =~= Set::<usize>::empty());
        s
    }

    pub fn contains(&self, level: usize) -> (b: bool)
        ensures
            b == self@.contains(level),
    {
        let mut i: usize = 0;
        while i < self.levels.len()
            invariant
                i <= self.levels@.len(),
                forall|j: int| 0 <= j < i ==> self.levels@[j] != level,
            decreases self.levels@.len() - i,
        {
            if self.levels[i] == level {
                assert(self.levels@.contains(level));
                return true;
            }
            i += 1;
        }
        false
    }

    pub fn insert(&mut self, level: usize)
        ensures
            final(self)@ == old(self)@.insert(level),
    {
        if !self.contains(level) {
            proof {
                use_type_invariant(&*self);
            }
            let ghost old_levels = self.levels@;
            let mut levels: Vec<usize> = Vec::new();
            std::mem::swap(&mut levels, &mut self.levels);
            levels.push(level);
            assert(levels@ == old_levels.push(level));
            assert(levels@.no_duplicates()) by {
                assert forall|i: int, j: int|
                    0 <= i < levels@.len() && 0 <= j < levels@.len() && i != j implies levels@[i]
                    != levels@[j] by {
                    if i == levels@.len() - 1 {
                        assert(old_levels.contains(levels@[j]) || j == i);
                    } else if j == levels@.len() - 1 {
                        assert(old_levels.contains(levels@[i]) || j == i);
                    }
                }
            }
            self.levels = levels;
            assert(self@ =~= old_levels.to_set().insert(level)) by {
                assert forall|l: usize| old_levels.to_set().contains(l) implies self@.contains(l) by {
                    let k = choose|k: int| 0 <= k < old_levels.len() && old_levels[k] == l;
                    assert(self.levels@[k] == l);
                }
                assert(self.levels@[self.levels@.len() - 1] == level);
            }
        } else {
            assert(self@ =~= self@.insert(level));
        }
    }

    pub fn len(&self) -> (n: usize)
        ensures
            self@.finite(),
            n == self@.len(),
    {
        proof {
            use_type_invariant(self);
            self.levels@.unique_seq_to_set();
        }
        self.levels.len()
    }

    /// The levels of the set, each once.
    pub fn to_vec(&self) -> (v: Vec<usize>)
        ensures
            v@.to_set() == self@,
            v@.no_duplicates(),
    {
        proof {
            use_type_invariant(self);
        }
        self.levels.clone()
    }

    /// The set of the levels of `v`.
    pub fn from_vec(v: &Vec<usize>) -> (s: LevelSet)
        ensures
            s@ == v@.to_set(),
    {
        let mut s = LevelSet::new();
        let mut i: usize = 0;
        while i < v.len()
            invariant
                i <= v@.len(),
                s@ == v@.subrange(0, i as int).to_set(),
            decreases v@.len() - i,
        {
            s.insert(v[i]);
            proof {
                let a = v@.subrange(0, i as int);
                let b = v@.subrange(0, i + 1);
                assert(b == a.push(v@[i as int]));
                assert(b.to_set() =~= a.to_set().insert(v@[i as int])) by {
                    assert forall|l: usize| b.to_set().contains(l) implies a.to_set().insert(
                        v@[i as int],
                    ).contains(l) by {
                        let k = choose|k: int| 0 <= k < b.len() && b[k] == l;
                        if k < a.len() {
                            assert(a[k] == l);
                        }
                    }
                    assert forall|l: usize| a.to_set().contains(l) implies b.to_set().contains(l) by {
                        let k = choose|k: int| 0 <= k < a.len() && a[k] == l;
                        assert(b[k] == l);
                    }
                    assert(b[b.len() - 1] == v@[i as int]);
                }
            }
            i += 1;
        }
        assert(v@.subrange(0, v@.len() as int) =~= v@);
        s
    }
}

/// A field of a level, as read from the level file: its identifier, and its
/// text when it is a text field that holds one.
pub struct LevelField {
    pub identifier: String,
    pub text: Option<String>,
}

/// A level of the level file: its identifier and its fields.
pub struct LevelInfo {
    pub identifier: String,
    pub fields: Vec<LevelField>,
}

/// The text of the first field named `Name` that holds a text, if any.
pub open spec fn first_name_field(fields: Seq<LevelField>) -> Option<Seq<char>>
    decreases fields.len(),
{
    if fields.len() == 0 {
        None
    } else if fields[0].identifier@ == "Name"@ && fields[0].text is Some {
        Some(fields[0].text->0@)
    } else {
        first_name_field(fields.drop_first())
    }
}

/// The name shown for a level: its `Name` field, else its identifier.
pub open spec fn display_name(level: LevelInfo) -> Seq<char> {
    match first_name_field(level.fields@) {
        Some(name) => name,
        None => level.identifier@,
    }
}

/// The name shown for a level: its first field named `Name` that holds a
/// text, else the level's identifier.
pub fn level_display_name(level: &LevelInfo) -> (name: String)
    ensures
        name@ == display_name(*level),
{
    let key = String::from_str("Name");
    let mut i: usize = 0;
    assert(level.fields@.skip(0) =~= level.fields@);
    while i < level.fields.len()
        invariant
            i <= level.fields@.len(),
            key@ == "Name"@,
            first_name_field(level.fields@) == first_name_field(level.fields@.skip(i as int)),
        decreases level.fields@.len() - i,
    {
        let field = &level.fields[i];
        proof {
            assert(level.fields@.skip(i as int)[0] == level.fields@[i as int]);
            assert(level.fields@.skip(i as int).drop_first() =~= level.fields@.skip(i + 1));
        }
        if field.identifier == key {
            if let Some(name) = &field.text {
                return name.clone();
            }
        }
        i += 1;
    }
    proof {
        assert(level.fields@.skip(i as int).len() == 0);
    }
    level.identifier.clone()
}

/// Whether progress should be written out: the number of completed levels
/// changed since the last write, and at least one level is completed.
pub fn should_save(completed_count: usize, last_saved: usize) -> (b: bool)
    ensures
        b == (completed_count != last_saved && completed_count > 0),
{
    completed_count != last_saved && completed_count > 0
}

/// The player's progress through the levels.
pub struct LevelProgress {
    pub completed: LevelSet,
    pub selected: usize,
    pub current_playing: Option<usize>,
    pub total_levels: usize,
    pub level_names: Vec<String>,
}

/// Whether `level` is open: it exists, and it is level 0 or the level
/// before it is completed.
pub open spec fn unlocked(completed: Set<usize>, total_levels: usize, level: usize) -> bool {
    level < total_levels && (level == 0 || completed.contains((level - 1) as usize))
}

/// How `level` stands for the player.
pub open spec fn state_of(completed: Set<usize>, total_levels: usize, level: usize) -> LevelState {
    if !unlocked(completed, total_levels, level) {
        LevelState::Locked
    } else if completed.contains(level) {
        LevelState::Done
    } else {
        LevelState::Unlocked
    }
}

impl LevelProgress {
    /// No level completed, none known yet.
    pub fn new() -> (p: LevelProgress)
        ensures
            p.completed@ == Set::<usize>::empty(),
            p.selected == 0,
            p.current_playing == None::<usize>,
            p.total_levels == 0,
            p.level_names@.len() == 0,
    {
        LevelProgress {
            completed: LevelSet::new(),
            selected: 0,
            current_playing: None,
            total_levels: 0,
            level_names: Vec::new(),
        }
    }

    /// The level to load when play starts: the level being played, else level 0.
    pub fn level_to_load(&self) -> (level: usize)
        ensures
            level == match self.current_playing {
                Some(l) => l,
                None => 0,
            },
    {
        match self.current_playing {
            Some(l) => l,
            None => 0,
        }
    }

    /// The name of `level`, or `???` when it has none.
    pub fn get_level_name(&self, level: usize) -> (name: &str)
        ensures
            name@ == if level < self.level_names@.len() {
                self.level_names@[level as int]@
            } else {
                "???"@
            },
    {
        if level < self.level_names.len() {
            self.level_names[level].as_str()
        } else {
            "???"
        }
    }

    pub fn is_unlocked(&self, level: usize) -> (b: bool)
        ensures
            b == unlocked(self.completed@, self.total_levels, level),
    {
        if level >= self.total_levels {
            return false;
        }
        if level == 0 {
            return true;
        }
        self.completed.contains(level - 1)
    }

    pub fn level_state(&self, level: usize) -> (s: LevelState)
        ensures
            s == state_of(self.completed@, self.total_levels, level),
    {
        if !self.is_unlocked(level) {
            return LevelState::Locked;
        }
        if self.completed.contains(level) {
            return LevelState::Done;
        }
        LevelState::Unlocked
    }

    /// Marks `level` completed and selects it.
    pub fn complete_level(&mut self, level: usize)
        ensures
            final(self).completed@ == old(self).completed@.insert(level),
            final(self).selected == level,
            final(self).current_playing == old(self).current_playing,
            final(self).total_levels == old(self).total_levels,
            final(self).level_names == old(self).level_names,
    {
        self.completed.insert(level);
        self.selected = level;
    }

    /// Replaces the completed levels with those of a saved game; returns the
    /// number of entries that the save held, which counts as written.
    pub fn load_saved(&mut self, saved: &Vec<usize>) -> (count: usize)
        ensures
            final(self).completed@ == saved@.to_set(),
            count == saved@.len(),
            final(self).selected == old(self).selected,
            final(self).current_playing == old(self).current_playing,
            final(self).total_levels == old(self).total_levels,
            final(self).level_names == old(self).level_names,
    {
        self.completed = LevelSet::from_vec(saved);
        saved.len()
    }

    /// The completed levels, each once, as they are saved.
    pub fn saved_levels(&self) -> (v: Vec<usize>)
        ensures
            v@.to_set() == self.completed@,
            v@.no_duplicates(),
    {
        self.completed.to_vec()
    }

    /// Takes the list of levels of the level file, unless it is already
    /// known: the number of levels and the name shown for each.
    pub fn set_level_list(&mut self, levels: &Vec<LevelInfo>)
        ensures
            old(self).total_levels > 0 ==> final(self).total_levels == old(self).total_levels
                && final(self).level_names == old(self).level_names,
            old(self).total_levels == 0 ==> final(self).total_levels == levels@.len()
                && final(self).level_names@.len() == levels@.len() && forall|i: int|
                0 <= i < levels@.len() ==> (#[trigger] final(self).level_names@[i])@
                    == display_name(levels@[i]),
            final(self).completed == old(self).completed,
            final(self).selected == old(self).selected,
            final(self).current_playing == old(self).current_playing,
    {
        if self.total_levels > 0 {
            return;
        }
        let mut names: Vec<String> = Vec::new();
        let mut i: usize = 0;
        while i < levels.len()
            invariant
                i <= levels@.len(),
                names@.len() == i,
                forall|j: int| 0 <= j < i ==> (#[trigger] names@[j])@ == display_name(levels@[j]),
            decreases levels@.len() - i,
        {
            names.push(level_display_name(&levels[i]));
            i += 1;
        }
        self.total_levels = levels.len();
        self.level_names = names;
    }
}

/// Completing a level opens the level after it, when there is one.
pub proof fn law_completing_opens_next(completed: Set<usize>, total_levels: usize, level: usize)
    requires
        level + 1 < total_levels,
    ensures
        unlocked(completed.insert(level), total_levels, (level + 1) as usize),
        state_of(completed.insert(level), total_levels, level) == (if unlocked(
            completed,
            total_levels,
            level,
        ) {
            LevelState::Done
        } else {
            LevelState::Locked
        }),
{
}

/// Completing a level never closes one: every open level stays open.
pub proof fn law_completing_keeps_open(
    completed: Set<usize>,
    total_levels: usize,
    level: usize,
    other: usize,
)
    requires
        unlocked(completed, total_levels, other),
    ensures
        unlocked(completed.insert(level), total_levels, other),
{
}

/// The levels written out by `saved_levels` are as many as the completed
/// levels, so that after `load_saved` reads them back the count it returns
/// matches and `should_save` asks for no save right away.
pub proof fn law_saved_progress_reloads(saved: Seq<usize>, completed: Set<usize>)
    requires
        saved.to_set() == completed,
        saved.no_duplicates(),
    ensures
        completed.finite(),
        saved.len() == completed.len(),
{
    saved.unique_seq_to_set();
}

/// Only level 0 is open at the start.
pub proof fn law_start_only_first_open(total_levels: usize, level: usize)
    requires
        total_levels > 0,
    ensures
        unlocked(Set::<usize>::empty(), total_levels, level) <==> level == 0,
{
}

} // verus!

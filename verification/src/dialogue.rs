//! Sign dialogue: the lines of a sign shown one after another in a box,
//! each wrapped to the box and revealed a few characters at a time.
use vstd::prelude::*;
use vstd::utf8::encode_utf8;

use crate::anim::Anim;

verus! {

/// Characters (counted in UTF-8 bytes) that fit on a line of the dialogue
/// box: the box's inner width of 476 units over 11 units per character.
pub const DIALOGUE_MAX_CHARS: usize = 43;

/// Lines that fit in the dialogue box.
pub const DIALOGUE_MAX_LINES: usize = 3;

/// The length of a text as `str::len` reports it: the number of bytes of
/// its UTF-8 encoding.
pub open spec fn utf8_len(s: Seq<char>) -> int {
    (encode_utf8(s).len() as usize) as int
}

/// Unicode's White_Space property, which `char::is_whitespace` tests.
pub open spec fn is_white_space(c: char) -> bool {
    let u = c as u32;
    (0x9 <= u <= 0xD) || u == 0x20 || u == 0x85 || u == 0xA0 || u == 0x1680 || (0x2000 <= u
        <= 0x200A) || u == 0x2028 || u == 0x2029 || u == 0x202F || u == 0x205F || u == 0x3000
}

/// Splitting the rest of a text, `chars`, into words, given the words found
/// so far and the word being read.
pub open spec fn split_acc(chars: Seq<char>, words: Seq<Seq<char>>, cur: Seq<char>) -> Seq<
    Seq<char>,
>
    decreases chars.len(),
{
    if chars.len() == 0 {
        if cur.len() > 0 {
            words.push(cur)
        } else {
            words
        }
    } else if is_white_space(chars[0]) {
        split_acc(chars.drop_first(), if cur.len() > 0 { words.push(cur) } else { words }, seq![])
    } else {
        split_acc(chars.drop_first(), words, cur.push(chars[0]))
    }
}

/// The words of a text: its maximal runs of non-white-space characters, in
/// order (what `str::split_whitespace` yields).
pub open spec fn split_words(text: Seq<char>) -> Seq<Seq<char>> {
    split_acc(text, seq![], seq![])
}

/// Greedy wrapping of the remaining `words`, given the lines finished so
/// far and the line being filled: a word goes on the current line, after a
/// space, when the line stays within `max_chars` bytes; otherwise the line
/// is finished and the word starts the next one. Wrapping stops once
/// `max_lines` lines are finished.
pub open spec fn wrap_from(
    words: Seq<Seq<char>>,
    result: Seq<Seq<char>>,
    current: Seq<char>,
    max_chars: int,
    max_lines: int,
) -> Seq<Seq<char>>
    decreases words.len(),
{
    if words.len() == 0 {
        if current.len() > 0 && result.len() < max_lines {
            result.push(current)
        } else {
            result
        }
    } else {
        let word = words[0];
        if current.len() == 0 {
            wrap_from(words.drop_first(), result, word, max_chars, max_lines)
        } else if utf8_len(current) + 1 + utf8_len(word) <= max_chars {
            wrap_from(words.drop_first(), result, current + seq![' '] + word, max_chars, max_lines)
        } else if result.len() + 1 >= max_lines {
            result.push(current)
        } else {
            wrap_from(words.drop_first(), result.push(current), word, max_chars, max_lines)
        }
    }
}

/// The lines of `text` wrapped to `max_chars` bytes, at most `max_lines` of them.
pub open spec fn wrap_lines(text: Seq<char>, max_chars: int, max_lines: int) -> Seq<Seq<char>> {
    wrap_from(split_words(text), seq![], seq![], max_chars, max_lines)
}

pub open spec fn strings_view(v: Seq<String>) -> Seq<Seq<char>> {
    v.map_values(|s: String| s@)
}

/// `String::push` from std: appends a character.
#[verifier::external_body]
fn push_char(s: &mut String, c: char)
    ensures
        final(s)@ == old(s)@.push(c),
{
    s.push(c);
}

/// Whether `c` is white space (Unicode's White_Space property).
pub fn is_whitespace_char(c: char) -> (b: bool)
    ensures
        b == is_white_space(c),
{
    let u = c as u32;
    (0x9 <= u && u <= 0xD) || u == 0x20 || u == 0x85 || u == 0xA0 || u == 0x1680 || (0x2000 <= u
        && u <= 0x200A) || u == 0x2028 || u == 0x2029 || u == 0x202F || u == 0x205F || u == 0x3000
}

/// The words of `text`, split at white space.
pub fn split_whitespace(text: &str) -> (words: Vec<String>)
    ensures
        strings_view(words@) == split_words(text@),
{
    let mut words: Vec<String> = Vec::new();
    let mut cur = String::new();
    let ghost tv = text@;
    assert(tv.skip(0) =~= tv);
    assert(strings_view(words@) =~= Seq::<Seq<char>>::empty());
    for c in it: text.chars()
        invariant
            it.seq() == tv,
            split_words(tv) == split_acc(tv.skip(it.index() as int), strings_view(words@), cur@),
    {
        proof {
            assert(tv.skip(it.index() as int).drop_first() =~= tv.skip(it.index() + 1));
            assert(tv.skip(it.index() as int)[0] == c);
        }
        if is_whitespace_char(c) {
            if !cur.as_str().is_empty() {
                let ghost before = strings_view(words@);
                words.push(cur);
                assert(strings_view(words@) =~= before.push(cur@));
                cur = String::new();
            } else {
                cur = String::new();
            }
        } else {
            push_char(&mut cur, c);
        }
    }
    proof {
        assert(tv.skip(tv.len() as int) =~= Seq::<char>::empty());
    }
    if !cur.as_str().is_empty() {
        let ghost before = strings_view(words@);
        words.push(cur);
        assert(strings_view(words@) =~= before.push(cur@));
    }
    words
}

/// `text` wrapped greedily into lines of at most `max_chars_per_line`
/// bytes (a single word longer than that gets a line of its own), at most
/// `max_lines` of them; words are separated by single spaces.
pub fn wrap_text(text: &str, max_chars_per_line: usize, max_lines: usize) -> (lines: Vec<String>)
    ensures
        strings_view(lines@) == wrap_lines(text@, max_chars_per_line as int, max_lines as int),
{
    let words = split_whitespace(text);
    let ghost wv = strings_view(words@);
    let ghost mc = max_chars_per_line as int;
    let ghost ml = max_lines as int;
    let mut result: Vec<String> = Vec::new();
    let mut current = String::new();
    let mut i: usize = 0;
    proof {
        assert(wv.skip(0) =~= wv);
        assert(strings_view(result@) =~= Seq::<Seq<char>>::empty());
        reveal_strlit(" ");
    }
    while i < words.len()
        invariant
            i <= words@.len(),
            wv == strings_view(words@),
            wv.len() == words@.len(),
            " "@ == seq![' '],
            wrap_lines(text@, mc, ml) == wrap_from(wv.skip(i as int), strings_view(result@), current@, mc, ml),
            mc == max_chars_per_line as int,
            ml == max_lines as int,
        decreases words@.len() - i,
    {
        let word = &words[i];
        proof {
            assert(wv.skip(i as int)[0] == word@);
            assert(wv.skip(i as int).drop_first() =~= wv.skip(i + 1));
        }
        if current.as_str().is_empty() {
            current = word.clone();
        } else {
            let fits = match current.as_str().len().checked_add(1) {
                Some(a) => match a.checked_add(word.as_str().len()) {
                    Some(b) => b <= max_chars_per_line,
                    None => false,
                },
                None => false,
            };
            if fits {
                let ghost c0 = current@;
                current.append(" ");
                current.append(word.as_str());
                assert(current@ =~= c0 + seq![' '] + word@);
            } else {
                let ghost before = strings_view(result@);
                result.push(current);
                assert(strings_view(result@) =~= before.push(current@));
                current = word.clone();
                if result.len() >= max_lines {
                    return result;
                }
            }
        }
        i += 1;
    }
    proof {
        assert(wv.skip(i as int) =~= Seq::<Seq<char>>::empty());
    }
    if !current.as_str().is_empty() && result.len() < max_lines {
        let ghost before = strings_view(result@);
        result.push(current);
        assert(strings_view(result@) =~= before.push(current@));
    }
    result
}

/// The sum of the byte lengths of `lines`.
pub open spec fn total_len(lines: Seq<Seq<char>>) -> int
    decreases lines.len(),
{
    if lines.len() == 0 {
        0
    } else {
        total_len(lines.drop_last()) + utf8_len(lines.last())
    }
}

/// `total_len`, capped at `usize::MAX` (which no text held in memory reaches).
pub open spec fn capped_total(lines: Seq<Seq<char>>) -> int {
    if total_len(lines) <= usize::MAX {
        total_len(lines)
    } else {
        usize::MAX as int
    }
}

/// `n` spaces.
pub open spec fn spaces(n: int) -> Seq<char> {
    Seq::new(n as nat, |i: int| ' ')
}

/// The wrapped lines as shown when `remaining` bytes' worth of them are
/// revealed: whole lines while they fit, then the revealed characters of
/// the next line padded with spaces to its byte length, then lines of
/// spaces only.
pub open spec fn reveal_lines(lines: Seq<Seq<char>>, remaining: int) -> Seq<Seq<char>>
    decreases lines.len(),
{
    if lines.len() == 0 {
        seq![]
    } else {
        let l = lines[0];
        let n = utf8_len(l);
        if remaining >= n {
            seq![l] + reveal_lines(lines.drop_first(), remaining - n)
        } else {
            let k = if remaining < l.len() {
                remaining
            } else {
                l.len() as int
            };
            seq![l.take(k) + spaces(n - remaining)] + reveal_lines(lines.drop_first(), 0)
        }
    }
}

/// Lines joined with newlines.
pub open spec fn join_lines(lines: Seq<Seq<char>>) -> Seq<char>
    decreases lines.len(),
{
    if lines.len() == 0 {
        seq![]
    } else if lines.len() == 1 {
        lines[0]
    } else {
        join_lines(lines.drop_last()) + seq!['\n'] + lines.last()
    }
}

/// The state of the dialogue box.
pub struct DialogueState {
    active: bool,
    lines: Vec<String>,
    current_line: usize,
    char_index: usize,
    just_started: bool,
    wrapped_lines: Vec<String>,
    total_chars: usize,
}

impl DialogueState {
    pub closed spec fn is_active(&self) -> bool {
        self.active
    }

    /// The lines of the sign being read.
    pub closed spec fn lines_view(&self) -> Seq<Seq<char>> {
        strings_view(self.lines@)
    }

    /// The index of the line being shown.
    pub closed spec fn line_index(&self) -> int {
        self.current_line as int
    }

    /// How many bytes of the shown line are revealed.
    pub closed spec fn revealed(&self) -> int {
        self.char_index as int
    }

    /// The dialogue was opened in this frame.
    pub closed spec fn is_just_started(&self) -> bool {
        self.just_started
    }

    /// The shown line, wrapped to the box.
    pub closed spec fn wrapped_view(&self) -> Seq<Seq<char>> {
        strings_view(self.wrapped_lines@)
    }

    /// The byte length of the shown line once wrapped.
    pub closed spec fn total(&self) -> int {
        self.total_chars as int
    }

    /// The wrapped text and its length belong to the shown line.
    pub open spec fn wf(&self) -> bool {
        &&& self.wrapped_view() == if self.line_index() < self.lines_view().len() {
            wrap_lines(
                self.lines_view()[self.line_index()],
                DIALOGUE_MAX_CHARS as int,
                DIALOGUE_MAX_LINES as int,
            )
        } else {
            Seq::<Seq<char>>::empty()
        }
        &&& self.total() == capped_total(self.wrapped_view())
    }

    /// A closed dialogue with no lines.
    pub fn new() -> (d: DialogueState)
        ensures
            d.wf(),
            !d.is_active(),
            d.lines_view().len() == 0,
            d.line_index() == 0,
            d.revealed() == 0,
            !d.is_just_started(),
    {
        let d = DialogueState {
            active: false,
            lines: Vec::new(),
            current_line: 0,
            char_index: 0,
            just_started: false,
            wrapped_lines: Vec::new(),
            total_chars: 0,
        };
        assert(d.wrapped_view() =~= Seq::<Seq<char>>::empty());
        assert(d.lines_view() =~= Seq::<Seq<char>>::empty());
        d
    }

    pub fn active(&self) -> (b: bool)
        ensures
            b == self.is_active(),
    {
        self.active
    }

    /// Wraps the shown line to the box and measures it; with no line left,
    /// nothing is shown.
    fn setup_current_line(&mut self)
        ensures
            final(self).wf(),
            final(self).is_active() == old(self).is_active(),
            final(self).lines_view() == old(self).lines_view(),
            final(self).line_index() == old(self).line_index(),
            final(self).revealed() == old(self).revealed(),
            final(self).is_just_started() == old(self).is_just_started(),
    {
        if self.current_line >= self.lines.len() {
            self.wrapped_lines = Vec::new();
            self.total_chars = 0;
            assert(self.wrapped_view() =~= Seq::<Seq<char>>::empty());
            return;
        }
        self.wrapped_lines = wrap_text(
            self.lines[self.current_line].as_str(),
            DIALOGUE_MAX_CHARS,
            DIALOGUE_MAX_LINES,
        );
        let mut total: usize = 0;
        let mut i: usize = 0;
        let ghost wv = strings_view(self.wrapped_lines@);
        while i < self.wrapped_lines.len()
            invariant
                i <= self.wrapped_lines@.len(),
                wv == strings_view(self.wrapped_lines@),
                total as int == capped_total(wv.take(i as int)),
            decreases self.wrapped_lines@.len() - i,
        {
            proof {
                assert(wv.take(i + 1).drop_last() =~= wv.take(i as int));
                assert(wv.take(i + 1).last() == self.wrapped_lines@[i as int]@);
                lemma_total_len_nonneg(wv.take(i as int));
            }
            total = total.saturating_add(self.wrapped_lines[i].as_str().len());
            i += 1;
        }
        assert(wv.take(i as int) =~= wv);
        self.total_chars = total;
    }

    /// Opens the dialogue on the lines of a sign, showing the first line
    /// with nothing revealed yet.
    pub fn open(&mut self, lines: Vec<String>)
        ensures
            final(self).wf(),
            final(self).is_active(),
            final(self).lines_view() == strings_view(lines@),
            final(self).line_index() == 0,
            final(self).revealed() == 0,
            final(self).is_just_started(),
    {
        self.active = true;
        self.lines = lines;
        self.current_line = 0;
        self.char_index = 0;
        self.just_started = true;
        self.setup_current_line();
    }

    /// The shown line is fully revealed (or there is none).
    pub open spec fn spec_line_complete(&self) -> bool {
        self.line_index() >= self.lines_view().len() || self.revealed() >= self.total()
    }

    pub fn is_line_complete(&self) -> (b: bool)
        ensures
            b == self.spec_line_complete(),
    {
        if self.current_line >= self.lines.len() {
            return true;
        }
        self.char_index >= self.total_chars
    }

    /// Enter: reveals the rest of the shown line, or, when it is all
    /// revealed, moves to the next line; after the last line the dialogue
    /// closes.
    pub fn advance(&mut self)
        requires
            old(self).wf(),
            old(self).line_index() < usize::MAX,
        ensures
            final(self).wf(),
            final(self).lines_view() == old(self).lines_view(),
            final(self).is_just_started() == old(self).is_just_started(),
            !old(self).spec_line_complete() ==> final(self).line_index() == old(self).line_index()
                && final(self).revealed() == old(self).total() && final(self).is_active() == old(self).is_active(),
            old(self).spec_line_complete() ==> final(self).line_index() == old(self).line_index() + 1
                && final(self).revealed() == 0 && final(self).is_active() == (old(self).is_active()
                && old(self).line_index() + 1 < old(self).lines_view().len()),
    {
        if !self.is_line_complete() {
            self.char_index = self.total_chars;
        } else {
            self.current_line += 1;
            self.char_index = 0;
            self.setup_current_line();
            if self.current_line >= self.lines.len() {
                self.active = false;
            }
        }
    }

    /// The revealed byte count after revealing `count` more: capped at the
    /// byte length of the shown line as written on the sign.
    pub open spec fn revealed_after(&self, count: usize) -> int {
        if count == 0 {
            self.revealed()
        } else if self.line_index() < self.lines_view().len() {
            let cap = utf8_len(self.lines_view()[self.line_index()]);
            if self.revealed() + count < cap {
                self.revealed() + count
            } else {
                cap
            }
        } else {
            self.revealed() + count
        }
    }

    /// Reveals `count` more bytes of the shown line, at most up to the
    /// byte length of the line as written on the sign.
    pub fn reveal_chars(&mut self, count: usize)
        requires
            old(self).wf(),
            old(self).revealed() + count <= usize::MAX,
        ensures
            final(self).wf(),
            final(self).revealed() == old(self).revealed_after(count),
            final(self).is_active() == old(self).is_active(),
            final(self).lines_view() == old(self).lines_view(),
            final(self).line_index() == old(self).line_index(),
            final(self).is_just_started() == old(self).is_just_started(),
    {
        if count > 0 {
            self.char_index = self.char_index + count;
            if self.current_line < self.lines.len() {
                let cap = self.lines[self.current_line].as_str().len();
                if cap < self.char_index {
                    self.char_index = cap;
                }
            }
        }
    }

    /// One frame of an open dialogue: `count` more bytes are revealed, and
    /// Enter advances, except in the frame that opened the dialogue (whose
    /// Enter opened it). Nothing happens when the dialogue is closed.
    pub fn update(&mut self, count: usize, enter_pressed: bool)
        requires
            old(self).wf(),
            old(self).revealed() + count <= usize::MAX,
            old(self).line_index() < usize::MAX,
        ensures
            final(self).wf(),
            !old(self).is_active() ==> *final(self) == *old(self),
            old(self).is_active() ==> !final(self).is_just_started(),
            final(self).lines_view() == old(self).lines_view(),
            old(self).is_active() ==> final(self).line_index() == if enter_pressed && !old(
                self).is_just_started() && (old(self).line_index() >= old(self).lines_view().len()
                || old(self).revealed_after(count) >= old(self).total()) {
                old(self).line_index() + 1
            } else {
                old(self).line_index()
            },
            old(self).is_active() ==> final(self).revealed() == if enter_pressed && !old(
                self).is_just_started() {
                if old(self).line_index() >= old(self).lines_view().len() || old(self).revealed_after(count)
                    >= old(self).total() {
                    0
                } else {
                    old(self).total()
                }
            } else {
                old(self).revealed_after(count)
            },
            old(self).is_active() ==> final(self).is_active() == (final(self).line_index()
                == old(self).line_index() || final(self).line_index() < old(self).lines_view().len()),
    {
        if !self.active {
            return;
        }
        let just_started = self.just_started;
        self.just_started = false;
        self.reveal_chars(count);
        if enter_pressed && !just_started {
            self.advance();
        }
    }

    /// The text shown in the box: the wrapped lines as revealed so far,
    /// joined with newlines.
    pub fn current_display_text(&self) -> (text: String)
        ensures
            text@ == join_lines(reveal_lines(self.wrapped_view(), self.revealed())),
    {
        let ghost wv = self.wrapped_view();
        let mut shown: Vec<String> = Vec::new();
        let mut remaining = self.char_index;
        let mut i: usize = 0;
        proof {
            assert(wv.skip(0) =~= wv);
            assert(strings_view(shown@) =~= Seq::<Seq<char>>::empty());
        }
        while i < self.wrapped_lines.len()
            invariant
                i <= self.wrapped_lines@.len(),
                wv == strings_view(self.wrapped_lines@),
                strings_view(shown@) + reveal_lines(wv.skip(i as int), remaining as int)
                    == reveal_lines(wv, self.revealed()),
            decreases self.wrapped_lines@.len() - i,
        {
            let line = &self.wrapped_lines[i];
            let line_len = line.as_str().len();
            proof {
                assert(wv.skip(i as int)[0] == line@);
                assert(wv.skip(i as int).drop_first() =~= wv.skip(i + 1));
            }
            let ghost before = strings_view(shown@);
            if remaining >= line_len {
                shown.push(line.clone());
                remaining = remaining - line_len;
                assert(strings_view(shown@) =~= before + seq![line@]);
            } else {
                let n_chars = line.as_str().unicode_len();
                let take = if remaining < n_chars {
                    remaining
                } else {
                    n_chars
                };
                let mut part = String::from_str(line.as_str().substring_char(0, take));
                let pad = line_len - remaining;
                let mut k: usize = 0;
                while k < pad
                    invariant
                        k <= pad,
                        part@ == line@.take(take as int) + spaces(k as int),
                    decreases pad - k,
                {
                    push_char(&mut part, ' ');
                    k += 1;
                    assert(part@ =~= line@.take(take as int) + spaces(k as int));
                }
                let ghost p = part@;
                shown.push(part);
                remaining = 0;
                assert(line@.subrange(0, take as int) =~= line@.take(take as int));
                assert(strings_view(shown@) =~= before + seq![p]);
            }
            i += 1;
            assert(strings_view(shown@) + reveal_lines(wv.skip(i as int), remaining as int)
                =~= reveal_lines(wv, self.revealed()));
        }
        proof {
            assert(wv.skip(i as int) =~= Seq::<Seq<char>>::empty());
            assert(strings_view(shown@) =~= reveal_lines(wv, self.revealed()));
        }
        let ghost sv = strings_view(shown@);
        let mut text = String::new();
        let mut j: usize = 0;
        proof {
            reveal_strlit("\n");
            assert(sv.take(0) =~= Seq::<Seq<char>>::empty());
        }
        while j < shown.len()
            invariant
                j <= shown@.len(),
                sv == strings_view(shown@),
                text@ == join_lines(sv.take(j as int)),
                "\n"@ == seq!['\n'],
            decreases shown@.len() - j,
        {
            proof {
                assert(sv.take(j + 1).drop_last() =~= sv.take(j as int));
                assert(sv.take(j + 1).last() == shown@[j as int]@);
            }
            if j > 0 {
                text.append("\n");
            }
            text.append(shown[j].as_str());
            j += 1;
            proof {
                if j == 1 {
                    assert(sv.take(1) =~= seq![sv[0]]);
                    assert(text@ =~= sv[0]);
                }
            }
        }
        assert(sv.take(j as int) =~= sv);
        text
    }
}

proof fn lemma_total_len_nonneg(lines: Seq<Seq<char>>)
    ensures
        total_len(lines) >= 0,
    decreases lines.len(),
{
    if lines.len() > 0 {
        lemma_total_len_nonneg(lines.drop_last());
    }
}

proof fn lemma_total_len_prepend(a: Seq<char>, s: Seq<Seq<char>>)
    ensures
        total_len(seq![a] + s) == utf8_len(a) + total_len(s),
    decreases s.len(),
{
    if s.len() == 0 {
        assert(seq![a] + s =~= seq![a]);
        assert(seq![a].drop_last() =~= Seq::<Seq<char>>::empty());
        assert(total_len(Seq::<Seq<char>>::empty()) == 0);
        assert(total_len(seq![a]) == total_len(seq![a].drop_last()) + utf8_len(a));
    } else {
        lemma_total_len_prepend(a, s.drop_last());
        assert((seq![a] + s).drop_last() =~= seq![a] + s.drop_last());
        assert((seq![a] + s).last() == s.last());
    }
}

/// The bytes of the budget `r` left for line `i` once the lines before it
/// have taken theirs (never below zero).
spec fn budget_at(lines: Seq<Seq<char>>, r: int, i: int) -> int {
    let b = r - total_len(lines.take(i));
    if b > 0 {
        b
    } else {
        0
    }
}

/// Line `i` shown with `rem` bytes of budget: whole when the budget covers
/// its bytes, else its first characters padded with spaces to its length.
spec fn line_with_budget(l: Seq<char>, rem: int) -> Seq<char> {
    if rem >= utf8_len(l) {
        l
    } else {
        l.take(if rem < l.len() { rem } else { l.len() as int }) + spaces(utf8_len(l) - rem)
    }
}

proof fn lemma_reveal_closed_form(lines: Seq<Seq<char>>, r: int)
    requires
        r >= 0,
    ensures
        reveal_lines(lines, r).len() == lines.len(),
        forall|i: int|
            0 <= i < lines.len() ==> #[trigger] reveal_lines(lines, r)[i] == line_with_budget(
                lines[i],
                budget_at(lines, r, i),
            ),
    decreases lines.len(),
{
    if lines.len() > 0 {
        let l = lines[0];
        let n = utf8_len(l);
        let tail = lines.drop_first();
        let r2 = if r >= n { r - n } else { 0 };
        lemma_reveal_closed_form(tail, r2);
        let out = reveal_lines(lines, r);
        let rec = reveal_lines(tail, r2);
        assert(lines.take(0) =~= Seq::<Seq<char>>::empty());
        if r >= n {
            assert(out == seq![l] + rec);
        } else {
            let k = if r < l.len() { r } else { l.len() as int };
            assert(out == seq![l.take(k) + spaces(n - r)] + rec);
        }
        assert forall|i: int| 0 <= i < lines.len() implies #[trigger] out[i] == line_with_budget(
            lines[i],
            budget_at(lines, r, i),
        ) by {
            if i > 0 {
                assert(out[i] == rec[i - 1]);
                assert(lines.take(i) =~= seq![l] + tail.take(i - 1));
                lemma_total_len_prepend(l, tail.take(i - 1));
                lemma_total_len_nonneg(tail.take(i - 1));
                assert(tail[i - 1] == lines[i]);
            }
        }
    }
}

/// Revealing spends a byte budget on the wrapped lines in order: a line is
/// shown in full when its bytes and those of the lines before it fit in the
/// revealed count; the line where the budget runs out shows as many
/// characters as budget is left for it, padded with spaces to its byte
/// length; and a non-empty line after it shows spaces only.
pub proof fn law_reveal_spends_budget(lines: Seq<Seq<char>>, revealed: int)
    requires
        revealed >= 0,
    ensures
        reveal_lines(lines, revealed).len() == lines.len(),
        forall|i: int|
            0 <= i < lines.len() && total_len(lines.take(i + 1)) <= revealed ==> #[trigger] reveal_lines(
                lines,
                revealed,
            )[i] == lines[i],
        forall|i: int|
            0 <= i < lines.len() && total_len(lines.take(i)) <= revealed < total_len(
                lines.take(i + 1),
            ) ==> #[trigger] reveal_lines(lines, revealed)[i] == lines[i].take(
                if revealed - total_len(lines.take(i)) < lines[i].len() {
                    revealed - total_len(lines.take(i))
                } else {
                    lines[i].len() as int
                },
            ) + spaces(total_len(lines.take(i + 1)) - revealed),
        forall|i: int|
            0 <= i < lines.len() && revealed < total_len(lines.take(i)) && utf8_len(lines[i]) > 0
                ==> #[trigger] reveal_lines(lines, revealed)[i] == spaces(utf8_len(lines[i])),
{
    lemma_reveal_closed_form(lines, revealed);
    assert forall|i: int| 0 <= i < lines.len() implies total_len(lines.take(i + 1)) == total_len(
        lines.take(i),
    ) + utf8_len(lines[i]) by {
        assert(lines.take(i + 1).drop_last() =~= lines.take(i));
    }
    assert forall|i: int| 0 <= i < lines.len() && revealed < total_len(lines.take(i)) && utf8_len(
        lines[i],
    ) > 0 implies #[trigger] reveal_lines(lines, revealed)[i] == spaces(utf8_len(lines[i])) by {
        assert(lines[i].take(0) + spaces(utf8_len(lines[i])) =~= spaces(utf8_len(lines[i])));
    }
}

/// A field of a sign, as read from the level file: its identifier and, when
/// it is a list of texts, its entries (each of which may be empty).
pub struct SignField {
    pub identifier: String,
    pub strings: Option<Vec<Option<String>>>,
}

/// The texts present among `entries`, in order.
pub open spec fn present_texts(entries: Seq<Option<String>>) -> Seq<Seq<char>>
    decreases entries.len(),
{
    if entries.len() == 0 {
        seq![]
    } else {
        let rest = present_texts(entries.drop_last());
        match entries.last() {
            Some(t) => rest.push(t@),
            None => rest,
        }
    }
}

/// The lines of a sign: the texts of its last list field named `text`.
pub open spec fn sign_lines_of(fields: Seq<SignField>) -> Seq<Seq<char>>
    decreases fields.len(),
{
    if fields.len() == 0 {
        seq![]
    } else {
        let f = fields.last();
        if f.identifier@ == "text"@ && f.strings is Some {
            present_texts(f.strings->0@)
        } else {
            sign_lines_of(fields.drop_last())
        }
    }
}

/// The lines of a sign: the texts of its last list field named `text`.
pub fn sign_lines(fields: &Vec<SignField>) -> (lines: Vec<String>)
    ensures
        strings_view(lines@) == sign_lines_of(fields@),
{
    let key = String::from_str("text");
    let mut lines: Vec<String> = Vec::new();
    let mut i: usize = 0;
    proof {
        assert(strings_view(lines@) =~= Seq::<Seq<char>>::empty());
    }
    while i < fields.len()
        invariant
            i <= fields@.len(),
            key@ == "text"@,
            strings_view(lines@) == sign_lines_of(fields@.take(i as int)),
        decreases fields@.len() - i,
    {
        let field = &fields[i];
        proof {
            assert(fields@.take(i + 1).drop_last() =~= fields@.take(i as int));
            assert(fields@.take(i + 1).last() == fields@[i as int]);
        }
        if field.identifier == key {
            if let Some(strings) = &field.strings {
                let mut found: Vec<String> = Vec::new();
                let mut j: usize = 0;
                proof {
                    assert(strings@.take(0) =~= Seq::<Option<String>>::empty());
                    assert(strings_view(found@) =~= Seq::<Seq<char>>::empty());
                }
                while j < strings.len()
                    invariant
                        j <= strings@.len(),
                        strings_view(found@) == present_texts(strings@.take(j as int)),
                    decreases strings@.len() - j,
                {
                    proof {
                        assert(strings@.take(j + 1).drop_last() =~= strings@.take(j as int));
                        assert(strings@.take(j + 1).last() == strings@[j as int]);
                    }
                    if let Some(text) = &strings[j] {
                        let ghost before = strings_view(found@);
                        found.push(text.clone());
                        assert(strings_view(found@) =~= before.push(text@));
                    }
                    j += 1;
                }
                assert(strings@.take(j as int) =~= strings@);
                lines = found;
            }
        }
        i += 1;
    }
    assert(fields@.take(i as int) =~= fields@);
    lines
}

/// How a sign is drawn.
#[derive(Clone, Copy, Debug, PartialEq, Eq, Structural)]
pub enum SignAnim {
    Idle,
    Active,
}

impl Anim for SignAnim {
    open spec fn spec_index(self) -> usize {
        match self {
            SignAnim::Idle => 0,
            SignAnim::Active => 1,
        }
    }

    open spec fn spec_from_index(index: usize) -> SignAnim {
        if index == 1 {
            SignAnim::Active
        } else {
            SignAnim::Idle
        }
    }

    proof fn lemma_index_roundtrip(a: SignAnim) {
    }

    fn index(&self) -> (i: usize) {
        match self {
            SignAnim::Idle => 0,
            SignAnim::Active => 1,
        }
    }

    fn from_index(index: usize) -> (a: SignAnim) {
        match index {
            1 => SignAnim::Active,
            _ => SignAnim::Idle,
        }
    }
}

/// How a sign is drawn this frame, or `None` to leave it: every sign is
/// active while a dialogue is open; otherwise a sign within reach is active
/// when the player stands idle (and left as it is when not), and a sign out
/// of reach is idle.
pub fn sign_anim_for(dialogue_active: bool, within_reach: bool, player_idle: bool) -> (a: Option<
    SignAnim,
>)
    ensures
        a == if dialogue_active {
            Some(SignAnim::Active)
        } else if within_reach {
            if player_idle {
                Some(SignAnim::Active)
            } else {
                None
            }
        } else {
            Some(SignAnim::Idle)
        },
{
    if dialogue_active {
        Some(SignAnim::Active)
    } else if within_reach {
        if player_idle {
            Some(SignAnim::Active)
        } else {
            None
        }
    } else {
        Some(SignAnim::Idle)
    }
}

/// The help line's override while no dialogue is open: a prompt when a sign
/// can be read, cleared again (if it is still that prompt) when none can.
pub fn sign_prompt(readable_sign: bool, override_text: &mut Option<String>)
    ensures
        readable_sign ==> (*final(override_text) matches Some(t) && t@ == "ENTER to read sign"@),
        !readable_sign ==> match *old(override_text) {
            Some(t) => if t@ == "ENTER to read sign"@ {
                *final(override_text) == None::<String>
            } else {
                *final(override_text) == *old(override_text)
            },
            None => *final(override_text) == None::<String>,
        },
{
    let prompt = String::from_str("ENTER to read sign");
    if readable_sign {
        *override_text = Some(prompt);
    } else {
        let is_prompt = match override_text {
            Some(t) => *t == prompt,
            None => false,
        };
        if is_prompt {
            *override_text = None;
        }
    }
}

proof fn lemma_wrap_from_count(
    words: Seq<Seq<char>>,
    result: Seq<Seq<char>>,
    current: Seq<char>,
    max_chars: int,
    max_lines: int,
)
    requires
        result.len() < max_lines,
    ensures
        wrap_from(words, result, current, max_chars, max_lines).len() <= max_lines,
    decreases words.len(),
{
    if words.len() > 0 {
        let word = words[0];
        if current.len() == 0 {
            lemma_wrap_from_count(words.drop_first(), result, word, max_chars, max_lines);
        } else if utf8_len(current) + 1 + utf8_len(word) <= max_chars {
            lemma_wrap_from_count(
                words.drop_first(),
                result,
                current + seq![' '] + word,
                max_chars,
                max_lines,
            );
        } else if result.len() + 1 < max_lines {
            lemma_wrap_from_count(words.drop_first(), result.push(current), word, max_chars, max_lines);
        }
    }
}

/// Wrapping never gives more lines than asked for (at least one).
pub proof fn law_wrap_line_count(text: Seq<char>, max_chars: int, max_lines: int)
    requires
        max_lines >= 1,
    ensures
        wrap_lines(text, max_chars, max_lines).len() <= max_lines,
{
    lemma_wrap_from_count(split_words(text), seq![], seq![], max_chars, max_lines);
}

proof fn lemma_encode_concat(a: Seq<char>, b: Seq<char>)
    ensures
        encode_utf8(a + b) == encode_utf8(a) + encode_utf8(b),
    decreases a.len(),
{
    if a.len() == 0 {
        assert(a + b =~= b);
        assert(encode_utf8(a) =~= Seq::<u8>::empty());
        assert(encode_utf8(a) + encode_utf8(b) =~= encode_utf8(b));
    } else {
        assert((a + b)[0] == a[0]);
        assert((a + b).drop_first() =~= a.drop_first() + b);
        lemma_encode_concat(a.drop_first(), b);
        assert(encode_utf8(a + b) =~= encode_utf8(a) + encode_utf8(b));
    }
}

proof fn lemma_encode_space()
    ensures
        encode_utf8(seq![' ']).len() == 1,
{
    let s = seq![' '];
    assert(s.drop_first() =~= Seq::<char>::empty());
    assert(s[0] as u32 == 32);
    assert(vstd::utf8::has_width_1_encoding(32));
    assert(vstd::utf8::encode_scalar(32).len() == 1);
    assert(encode_utf8(s.drop_first()).len() == 0);
}

/// A line fits `max_chars` bytes, or it is a single word of the text.
pub open spec fn line_fits(line: Seq<char>, words: Seq<Seq<char>>, max_chars: int) -> bool {
    encode_utf8(line).len() <= max_chars || words.contains(line)
}

proof fn lemma_wrap_from_fits(
    all: Seq<Seq<char>>,
    words: Seq<Seq<char>>,
    result: Seq<Seq<char>>,
    current: Seq<char>,
    max_chars: int,
    max_lines: int,
)
    requires
        0 <= max_chars <= usize::MAX,
        forall|i: int| 0 <= i < words.len() ==> all.contains(#[trigger] words[i]),
        forall|i: int| 0 <= i < all.len() ==> encode_utf8(#[trigger] all[i]).len() <= usize::MAX,
        forall|i: int| 0 <= i < result.len() ==> line_fits(#[trigger] result[i], all, max_chars),
        current.len() > 0 ==> line_fits(current, all, max_chars),
    ensures
        forall|i: int|
            0 <= i < wrap_from(words, result, current, max_chars, max_lines).len() ==> line_fits(
                #[trigger] wrap_from(words, result, current, max_chars, max_lines)[i],
                all,
                max_chars,
            ),
    decreases words.len(),
{
    if words.len() == 0 {
        if current.len() > 0 && result.len() < max_lines {
            let r = result.push(current);
            assert forall|i: int| 0 <= i < r.len() implies line_fits(#[trigger] r[i], all, max_chars) by {
                if i < result.len() {
                    assert(r[i] == result[i]);
                }
            }
            assert(wrap_from(words, result, current, max_chars, max_lines) == r);
        } else {
            assert(wrap_from(words, result, current, max_chars, max_lines) == result);
        }
    } else {
        let word = words[0];
        assert(all.contains(words[0]));
        assert forall|i: int| 0 <= i < words.drop_first().len() implies all.contains(
            #[trigger] words.drop_first()[i],
        ) by {
            assert(words.drop_first()[i] == words[i + 1]);
        }
        if current.len() == 0 {
            lemma_wrap_from_fits(all, words.drop_first(), result, word, max_chars, max_lines);
            assert(wrap_from(words, result, current, max_chars, max_lines) == wrap_from(
                words.drop_first(),
                result,
                word,
                max_chars,
                max_lines,
            ));
        } else if utf8_len(current) + 1 + utf8_len(word) <= max_chars {
            let joined = current + seq![' '] + word;
            let wi = choose|i: int| 0 <= i < all.len() && all[i] == word;
            assert(encode_utf8(word).len() <= usize::MAX);
            if !(encode_utf8(current).len() <= max_chars) {
                let ci = choose|i: int| 0 <= i < all.len() && all[i] == current;
                assert(encode_utf8(all[ci]).len() <= usize::MAX);
            }
            lemma_encode_concat(current, seq![' ']);
            lemma_encode_concat(current + seq![' '], word);
            lemma_encode_space();
            assert(encode_utf8(joined).len() <= max_chars);
            lemma_wrap_from_fits(all, words.drop_first(), result, joined, max_chars, max_lines);
            assert(wrap_from(words, result, current, max_chars, max_lines) == wrap_from(
                words.drop_first(),
                result,
                joined,
                max_chars,
                max_lines,
            ));
        } else {
            let r = result.push(current);
            assert forall|i: int| 0 <= i < r.len() implies line_fits(#[trigger] r[i], all, max_chars) by {
                if i < result.len() {
                    assert(r[i] == result[i]);
                }
            }
            if result.len() + 1 < max_lines {
                lemma_wrap_from_fits(all, words.drop_first(), r, word, max_chars, max_lines);
                assert(wrap_from(words, result, current, max_chars, max_lines) == wrap_from(
                    words.drop_first(),
                    r,
                    word,
                    max_chars,
                    max_lines,
                ));
            } else {
                assert(wrap_from(words, result, current, max_chars, max_lines) == r);
            }
        }
    }
}

/// Every wrapped line fits in `max_chars` bytes, except a line that holds
/// a single word of the text (a word too long for a line gets one of its own).
/// Words are taken to have byte lengths that fit in `usize`, as every
/// string in memory has.
pub proof fn law_wrapped_lines_fit(text: Seq<char>, max_chars: int, max_lines: int)
    requires
        0 <= max_chars <= usize::MAX,
        forall|i: int|
            0 <= i < split_words(text).len() ==> encode_utf8(#[trigger] split_words(text)[i]).len()
                <= usize::MAX,
    ensures
        forall|i: int|
            0 <= i < wrap_lines(text, max_chars, max_lines).len() ==> line_fits(
                #[trigger] wrap_lines(text, max_chars, max_lines)[i],
                split_words(text),
                max_chars,
            ),
{
    let all = split_words(text);
    assert forall|i: int| 0 <= i < all.len() implies all.contains(#[trigger] all[i]) by {}
    lemma_wrap_from_fits(all, all, seq![], seq![], max_chars, max_lines);
}

} // verus!

use vstd::prelude::*;

use crate::text::{push_char, trim_str, trimmed};

verus! {

/// One checkbox item of the list.
#[derive(Debug)]
pub struct Todo {
    pub description: String,
    pub completed: bool,
}

/// What an item is, for the file format: its description and its flag.
pub open spec fn todo_model(t: Todo) -> (Seq<char>, bool) {
    (t.description@, t.completed)
}

/// The models of a list of items, in order.
pub open spec fn todo_models(todos: Seq<Todo>) -> Seq<(Seq<char>, bool)> {
    Seq::new(todos.len(), |i: int| todo_model(todos[i]))
}

/// The character inside the brackets: `x` for a completed item, a space otherwise.
pub open spec fn check_mark(completed: bool) -> char {
    if completed {
        'x'
    } else {
        ' '
    }
}

/// `[x] description` or `[ ] description`.
pub open spec fn display_text(description: Seq<char>, completed: bool) -> Seq<char> {
    seq!['[', check_mark(completed), ']', ' '] + description
}

/// One line of the file, without its newline: `- [x] description` or `- [ ] description`.
pub open spec fn line_text(description: Seq<char>, completed: bool) -> Seq<char> {
    seq!['-', ' '] + display_text(description, completed)
}

/// Whether `- [c] ` (with `c` a space, `x` or `X`) starts at index `i` of `s`.
pub open spec fn matches_at(s: Seq<char>, i: int) -> bool {
    &&& 0 <= i
    &&& i + 6 <= s.len()
    &&& s[i] == '-'
    &&& s[i + 1] == ' '
    &&& s[i + 2] == '['
    &&& (s[i + 3] == ' ' || s[i + 3] == 'x' || s[i + 3] == 'X')
    &&& s[i + 4] == ']'
    &&& s[i + 5] == ' '
}

/// The first index at or after `i` where the item pattern starts, or -1.
pub open spec fn first_match_from(s: Seq<char>, i: int) -> int
    decreases s.len() - i,
{
    if i < 0 || i + 6 > s.len() {
        -1
    } else if matches_at(s, i) {
        i
    } else {
        first_match_from(s, i + 1)
    }
}

/// What a line of the file holds: at the first place where `- [c] ` occurs,
/// an item whose flag is set unless `c` is a space and whose description is
/// the rest of the line; nothing when the pattern does not occur.
pub open spec fn parse_line(s: Seq<char>) -> Option<(Seq<char>, bool)> {
    let i = first_match_from(s, 0);
    if i < 0 {
        None
    } else {
        Some((s.subrange(i + 6, s.len() as int), s[i + 3] != ' '))
    }
}

/// The text of a whole file: each item as its line followed by a newline.
pub open spec fn file_text(items: Seq<(Seq<char>, bool)>) -> Seq<char>
    decreases items.len(),
{
    if items.len() == 0 {
        Seq::empty()
    } else {
        file_text(items.drop_last()) + line_text(items.last().0, items.last().1) + seq!['\n']
    }
}

/// The pieces of `s` between newlines, as `str::split('\n')` gives them: one
/// more piece than there are newlines.
pub open spec fn split_lines(s: Seq<char>) -> Seq<Seq<char>>
    decreases s.len(),
{
    if s.len() == 0 {
        seq![Seq::empty()]
    } else {
        let rest = split_lines(s.drop_last());
        if s.last() == '\n' {
            rest.push(Seq::empty())
        } else {
            rest.update(rest.len() - 1, rest.last().push(s.last()))
        }
    }
}

/// The items that a sequence of lines holds, in order; lines that hold none
/// are left out.
pub open spec fn parse_lines(lines: Seq<Seq<char>>) -> Seq<(Seq<char>, bool)>
    decreases lines.len(),
{
    if lines.len() == 0 {
        Seq::empty()
    } else {
        let front = parse_lines(lines.drop_last());
        match parse_line(lines.last()) {
            Some(item) => front.push(item),
            None => front,
        }
    }
}

/// The items that the text of a file holds.
pub open spec fn parse_text(s: Seq<char>) -> Seq<(Seq<char>, bool)> {
    parse_lines(split_lines(s))
}

/// Whether no description of the items holds a newline.
pub open spec fn no_newlines(items: Seq<(Seq<char>, bool)>) -> bool {
    forall|i: int, j: int| 0 <= i < items.len() && 0 <= j < items[i].0.len() ==> items[i].0[j] != '\n'
}

proof fn lemma_split_lines_nonempty(s: Seq<char>)
    ensures
        split_lines(s).len() >= 1,
    decreases s.len(),
{
    if s.len() > 0 {
        lemma_split_lines_nonempty(s.drop_last());
    }
}

/// Text without a newline extends the last piece.
proof fn lemma_split_lines_extend(p: Seq<char>, t: Seq<char>)
    requires
        forall|j: int| 0 <= j < t.len() ==> t[j] != '\n',
    ensures
        split_lines(p + t).len() == split_lines(p).len(),
        split_lines(p + t) == split_lines(p).update(
            split_lines(p).len() - 1,
            split_lines(p).last() + t,
        ),
    decreases t.len(),
{
    lemma_split_lines_nonempty(p);
    if t.len() == 0 {
        assert(p + t =~= p);
        assert(split_lines(p).last() + t =~= split_lines(p).last());
        assert(split_lines(p).update(split_lines(p).len() - 1, split_lines(p).last())
            =~= split_lines(p));
    } else {
        let t0 = t.drop_last();
        lemma_split_lines_extend(p, t0);
        assert((p + t).drop_last() =~= p + t0);
        assert((p + t).last() == t.last());
        assert(split_lines(p).last() + t0 + seq![t.last()] =~= split_lines(p).last() + t);
        assert((split_lines(p).last() + t0).push(t.last()) =~= split_lines(p).last() + t);
        assert(split_lines(p + t) =~= split_lines(p).update(
            split_lines(p).len() - 1,
            split_lines(p).last() + t,
        ));
    }
}

/// Reading back the line written for an item gives the same item, whatever
/// its description holds.
pub proof fn lemma_line_round_trip(description: Seq<char>, completed: bool)
    ensures
        parse_line(line_text(description, completed)) == Some((description, completed)),
{
    let s = line_text(description, completed);
    assert(matches_at(s, 0));
    assert(s.subrange(6, s.len() as int) =~= description);
}

/// Splitting a file's text gives the lines of its items and one empty piece
/// after the last newline.
proof fn lemma_split_file_text(items: Seq<(Seq<char>, bool)>)
    requires
        no_newlines(items),
    ensures
        split_lines(file_text(items)) == Seq::new(
            items.len(),
            |i: int| line_text(items[i].0, items[i].1),
        ).push(Seq::empty()),
    decreases items.len(),
{
    if items.len() > 0 {
        let front = items.drop_last();
        assert(no_newlines(front)) by {
            assert forall|i: int, j: int| 0 <= i < front.len() && 0 <= j < front[i].0.len()
                implies front[i].0[j] != '\n' by {
                assert(front[i] == items[i]);
            }
        }
        lemma_split_file_text(front);
        let p = file_text(front);
        let (d, c) = items.last();
        let line = line_text(d, c);
        assert forall|j: int| 0 <= j < line.len() implies line[j] != '\n' by {
            if j >= 6 {
                assert(line[j] == d[j - 6]);
                assert(items[items.len() - 1] == items.last());
            }
        }
        lemma_split_lines_extend(p, line);
        let whole = p + line + seq!['\n'];
        assert(whole.drop_last() =~= p + line);
        assert(file_text(items) == whole);
        assert(split_lines(file_text(items)) =~= Seq::new(
            items.len(),
            |i: int| line_text(items[i].0, items[i].1),
        ).push(Seq::empty()));
    } else {
        assert(split_lines(file_text(items)) =~= Seq::new(
            items.len(),
            |i: int| line_text(items[i].0, items[i].1),
        ).push(Seq::empty()));
    }
}

proof fn lemma_parse_item_lines(items: Seq<(Seq<char>, bool)>)
    ensures
        parse_lines(Seq::new(items.len(), |i: int| line_text(items[i].0, items[i].1))) == items,
    decreases items.len(),
{
    let lines = Seq::new(items.len(), |i: int| line_text(items[i].0, items[i].1));
    if items.len() > 0 {
        let front = items.drop_last();
        lemma_parse_item_lines(front);
        assert(lines.drop_last() =~= Seq::new(
            front.len(),
            |i: int| line_text(front[i].0, front[i].1),
        ));
        lemma_line_round_trip(items.last().0, items.last().1);
        assert(parse_lines(lines) =~= items);
    } else {
        assert(parse_lines(lines) =~= items);
    }
}

/// Reading back the text written for a list gives the same list, as long as
/// no description holds a newline.
pub proof fn lemma_round_trip(items: Seq<(Seq<char>, bool)>)
    requires
        no_newlines(items),
    ensures
        parse_text(file_text(items)) == items,
{
    lemma_split_file_text(items);
    let lines = Seq::new(items.len(), |i: int| line_text(items[i].0, items[i].1));
    lemma_parse_item_lines(items);
    assert(lines.push(Seq::empty()).drop_last() =~= lines);
    assert(parse_line(Seq::empty()) is None);
}

/// Copies `v[from..]` into a new string.
fn string_from(v: &Vec<char>, from: usize) -> (r: String)
    requires
        from <= v.len(),
    ensures
        r@ == v@.subrange(from as int, v.len() as int),
{
    let mut r = String::new();
    let mut i = from;
    while i < v.len()
        invariant
            from <= i <= v.len(),
            r@ == v@.subrange(from as int, i as int),
        decreases v.len() - i,
    {
        push_char(&mut r, v[i]);
        i = i + 1;
    }
    r
}

/// Reads one line, given as characters, as an item.
fn parse_chars(v: &Vec<char>) -> (r: Option<Todo>)
    ensures
        match r {
            Some(t) => parse_line(v@) == Some(todo_model(t)),
            None => parse_line(v@) is None,
        },
{
    let mut i: usize = 0;
    while i < v.len() && v.len() - i >= 6
        invariant
            i <= v.len(),
            first_match_from(v@, 0) == first_match_from(v@, i as int),
        decreases v.len() - i,
    {
        let c = v[i + 3];
        if v[i] == '-' && v[i + 1] == ' ' && v[i + 2] == '[' && (c == ' ' || c == 'x' || c
            == 'X') && v[i + 4] == ']' && v[i + 5] == ' ' {
            let description = string_from(v, i + 6);
            return Some(Todo { description, completed: c != ' ' });
        }
        i = i + 1;
    }
    None
}

/// The text of the file for a list: each item's line followed by a newline.
pub fn serialize_todos(todos: &Vec<Todo>) -> (r: String)
    ensures
        r@ == file_text(todo_models(todos@)),
{
    let mut r = String::new();
    let mut i: usize = 0;
    while i < todos.len()
        invariant
            i <= todos.len(),
            r@ == file_text(todo_models(todos@).take(i as int)),
        decreases todos.len() - i,
    {
        let line = todos[i].serialize();
        r.append(line.as_str());
        push_char(&mut r, '\n');
        proof {
            let m = todo_models(todos@);
            assert(m.take(i + 1).drop_last() =~= m.take(i as int));
            assert(m.take(i + 1).last() == todo_model(todos@[i as int]));
        }
        i = i + 1;
    }
    assert(todo_models(todos@).take(todos.len() as int) =~= todo_models(todos@));
    r
}

/// The items of a file's text: its pieces between newlines read one by one,
/// in order, those that hold no item left out.
pub fn deserialize_todos(text: &str) -> (r: Vec<Todo>)
    ensures
        todo_models(r@) == parse_text(text@),
{
    let mut r: Vec<Todo> = Vec::new();
    let mut line: Vec<char> = Vec::new();
    for c in it: text.chars()
        invariant
            it.seq() == text@,
            todo_models(r@) == parse_lines(split_lines(text@.take(it.index() as int)).drop_last()),
            line@ == split_lines(text@.take(it.index() as int)).last(),
    {
        let ghost k = it.index() as int;
        let ghost before = split_lines(text@.take(k));
        proof {
            lemma_split_lines_nonempty(text@.take(k));
            assert(text@.take(k + 1).drop_last() =~= text@.take(k));
        }
        if c == '\n' {
            let parsed = parse_chars(&line);
            match parsed {
                Some(t) => r.push(t),
                None => {},
            }
            line = Vec::new();
            proof {
                assert(split_lines(text@.take(k + 1)).drop_last() =~= before);
                assert(todo_models(r@) =~= parse_lines(before));
            }
        } else {
            line.push(c);
            proof {
                assert(split_lines(text@.take(k + 1)).drop_last() =~= before.drop_last());
            }
        }
    }
    proof {
        assert(text@.take(text@.len() as int) =~= text@);
        lemma_split_lines_nonempty(text@);
    }
    let parsed = parse_chars(&line);
    match parsed {
        Some(t) => r.push(t),
        None => {},
    }
    proof {
        let all = split_lines(text@);
        assert(all.drop_last().push(all.last()) =~= all);
        assert(todo_models(r@) =~= parse_lines(all));
    }
    r
}

impl Todo {
    /// A new, incomplete item; the description is trimmed of surrounding whitespace.
    pub fn new(description: &str) -> (r: Todo)
        ensures
            r.description@ == trimmed(description@),
            !r.completed,
    {
        Todo { description: trim_str(description).to_owned(), completed: false }
    }

    /// `[x] description` for a completed item, `[ ] description` otherwise.
    pub fn to_string(&self) -> (r: String)
        ensures
            r@ == display_text(self.description@, self.completed),
    {
        let mut r = String::new();
        push_char(&mut r, '[');
        push_char(&mut r, if self.completed { 'x' } else { ' ' });
        push_char(&mut r, ']');
        push_char(&mut r, ' ');
        r.append(self.description.as_str());
        r
    }

    /// Reads one line of the file. The item is found at the first place where
    /// `- [ ] `, `- [x] ` or `- [X] ` occurs; a line without it gives `None`.
    pub fn deserialize(line: &str) -> (r: Option<Todo>)
        ensures
            match r {
                Some(t) => parse_line(line@) == Some(todo_model(t)),
                None => parse_line(line@) is None,
            },
    {
        let mut v: Vec<char> = Vec::new();
        for c in it: line.chars()
            invariant
                v@ == it.seq().take(it.index() as int),
        {
            v.push(c);
        }
        assert(v@ =~= line@);
        parse_chars(&v)
    }

    /// The item as one line of the file, without the newline.
    pub fn serialize(&self) -> (r: String)
        ensures
            r@ == line_text(self.description@, self.completed),
    {
        let mut r = String::new();
        push_char(&mut r, '-');
        push_char(&mut r, ' ');
        r.append(self.to_string().as_str());
        r
    }
}

} // verus!

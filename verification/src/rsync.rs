//! rsync: the arguments of a run, the reading of its itemized output, and
//! the texts of the rsync and destination-diff panes.

use vstd::prelude::*;

use crate::git::{
    Candidate, CandidateView, ChangeKind, candidate_views, char_count_at, char_count_at_byte,
    lemma_count_le_len,
};
use crate::path_order::join_on;
use crate::text::{
    chars_of, contains_char, contains_chars, contains_seq, decimal, each_line, eq_str, has_char,
    has_prefix, lines, pad_right, push_char, push_decimal, push_each_line, push_padded,
    split_lines, starts_with, string_from_chars, sub_chars, trim, trim_chars, truncate_text,
    truncated, utf8_len, views, char_width,
};

verus! {

/// Itemized lines put the path after a 12-byte prefix: the 11-character
/// change code and a space.
pub open spec fn itemized_path_start(line: Seq<char>) -> Option<nat> {
    if utf8_len(line) <= 12 {
        None
    } else {
        char_count_at_byte(line, 12)
    }
}

/// Every line of `stdout` either is at most 12 bytes long or has a character
/// boundary at byte 12, so that the path after the change code can be cut out.
pub open spec fn itemized_output_ok(stdout: Seq<char>) -> bool {
    forall|i: int|
        0 <= i < lines(stdout).len() ==> (utf8_len(#[trigger] lines(stdout)[i]) <= 12
            || char_count_at_byte(lines(stdout)[i], 12) is Some)
}

/// The itemized line `line` reports on `path` (or on `path` as a symlink).
pub open spec fn line_matches_path(line: Seq<char>, path: Seq<char>) -> bool {
    match itemized_path_start(line) {
        Some(k) => {
            let rest = line.skip(k as int);
            rest == path || starts_with(rest, path + " ->"@)
        },
        None => false,
    }
}

/// The lines of `stdout` that report on `path`.
pub open spec fn matching_lines(stdout: Seq<char>, path: Seq<char>) -> Seq<Seq<char>> {
    lines(stdout).filter(|l: Seq<char>| line_matches_path(l, path))
}

fn utf8_len_exceeds(e: &Vec<char>, n: usize) -> (b: bool)
    requires
        n <= 16,
    ensures
        b == (utf8_len(e@) > n),
{
    let mut i: usize = 0;
    let mut used: usize = 0;
    assert(e@.take(0) =~= Seq::<char>::empty());
    while i < e.len() && used <= n
        invariant
            i <= e@.len(),
            used == utf8_len(e@.take(i as int)),
            used <= n + 4,
            n <= 16,
        decreases e@.len() - i,
    {
        proof {
            crate::text::lemma_utf8_len_take_step(e@, i as int);
        }
        used = used + crate::text::char_width_of(e[i]);
        i = i + 1;
    }
    proof {
        assert(e@ =~= e@.take(i as int) + e@.skip(i as int));
        crate::text::lemma_utf8_len_concat(e@.take(i as int), e@.skip(i as int));
    }
    used > n
}

/// Whether rsync's itemized output can be read line by line (see
/// `itemized_output_ok`).
pub fn itemized_output_is_ok(stdout: &str) -> (b: bool)
    ensures
        b == itemized_output_ok(stdout@),
{
    let ls = split_lines(&chars_of(stdout));
    let mut i: usize = 0;
    while i < ls.len()
        invariant
            i <= ls@.len(),
            views(ls@) == lines(stdout@),
            forall|k: int|
                0 <= k < i ==> (utf8_len(#[trigger] lines(stdout@)[k]) <= 12 || char_count_at_byte(
                    lines(stdout@)[k],
                    12,
                ) is Some),
        decreases ls@.len() - i,
    {
        assert(views(ls@)[i as int] == ls@[i as int]@);
        if utf8_len_exceeds(&ls[i], 12) && char_count_at(&ls[i], 12).is_none() {
            return false;
        }
        i = i + 1;
    }
    true
}

fn line_matches(line: &Vec<char>, path: &Vec<char>) -> (b: bool)
    requires
        utf8_len(line@) <= 12 || char_count_at_byte(line@, 12) is Some,
    ensures
        b == line_matches_path(line@, path@),
{
    if !utf8_len_exceeds(line, 12) {
        return false;
    }
    let k = match char_count_at(line, 12) {
        Some(k) => k,
        None => {
            return false;
        },
    };
    proof {
        lemma_count_le_len(line@, 12, k as nat);
    }
    let rest = sub_chars(line, k, line.len());
    if rest.len() == path.len() && has_prefix(&rest, path) {
        assert(rest@.take(path@.len() as int) =~= rest@);
        return true;
    }
    let mut pat = sub_chars(path, 0, path.len());
    pat.push(' ');
    pat.push('-');
    pat.push('>');
    proof {
        reveal_strlit(" ->");
        assert(pat@ =~= path@ + " ->"@);
        if rest@ == path@ {
            assert(rest@.take(path@.len() as int) =~= rest@);
        }
    }
    has_prefix(&rest, &pat)
}

/// The lines of rsync's itemized output `stdout` that report on `path`.
pub fn matching_itemized_lines(stdout: &str, path: &str) -> (r: Vec<String>)
    requires
        itemized_output_ok(stdout@),
    ensures
        r@.map_values(|s: String| s@) == matching_lines(stdout@, path@),
{
    let ls = split_lines(&chars_of(stdout));
    let p = chars_of(path);
    let mut out: Vec<String> = Vec::new();
    let mut i: usize = 0;
    let ghost all = lines(stdout@);
    let ghost pred = |l: Seq<char>| line_matches_path(l, path@);
    assert(all.take(0).filter(pred) =~= Seq::<Seq<char>>::empty());
    while i < ls.len()
        invariant
            i <= ls@.len(),
            views(ls@) == all,
            all == lines(stdout@),
            p@ == path@,
            itemized_output_ok(stdout@),
            pred == |l: Seq<char>| line_matches_path(l, path@),
            out@.map_values(|s: String| s@) == all.take(i as int).filter(pred),
        decreases ls@.len() - i,
    {
        assert(views(ls@)[i as int] == ls@[i as int]@);
        assert(all.take(i + 1).drop_last() =~= all.take(i as int));
        assert(all.take(i + 1).last() == ls@[i as int]@);
        proof {
            reveal(Seq::filter);
        }
        let ghost before = out@.map_values(|s: String| s@);
        if line_matches(&ls[i], &p) {
            out.push(string_from_chars(&ls[i]));
            assert(out@.map_values(|s: String| s@) =~= before.push(ls@[i as int]@));
        }
        i = i + 1;
    }
    assert(all.take(i as int) =~= all);
    out
}

// ---- decoding itemized change codes ----

/// The first 11 bytes of a line (its change code), or the whole line when
/// byte 11 is past its end or inside a character.
pub open spec fn change_code(line: Seq<char>) -> Seq<char> {
    match char_count_at_byte(line, 11) {
        Some(k) => line.take(k as int),
        None => line,
    }
}

pub open spec fn char_at_is(c: Seq<char>, i: int, ch: char) -> bool {
    0 <= i < c.len() && c[i] == ch
}

pub open spec fn one(s: Seq<char>) -> Seq<Seq<char>> {
    seq![s]
}

pub open spec fn when(b: bool, s: Seq<char>) -> Seq<Seq<char>> {
    if b {
        seq![s]
    } else {
        Seq::empty()
    }
}

/// What the update-type character says.
pub open spec fn update_type_text(c: Seq<char>) -> Seq<Seq<char>> {
    if char_at_is(c, 0, '>') || char_at_is(c, 0, '<') {
        one("file data would be transferred from source to destination"@)
    } else if char_at_is(c, 0, 'c') {
        one("destination item would be created or locally changed"@)
    } else if char_at_is(c, 0, '.') {
        one("file data is unchanged, but attributes may change"@)
    } else if char_at_is(c, 0, '*') {
        one("rsync emitted a special message"@)
    } else {
        Seq::empty()
    }
}

/// What the file-type character says.
pub open spec fn file_type_text(c: Seq<char>) -> Seq<Seq<char>> {
    if char_at_is(c, 1, 'f') {
        one("regular file"@)
    } else if char_at_is(c, 1, 'd') {
        one("directory"@)
    } else if char_at_is(c, 1, 'L') {
        one("symbolic link"@)
    } else if char_at_is(c, 1, 'D') {
        one("device"@)
    } else if char_at_is(c, 1, 'S') {
        one("special file"@)
    } else {
        Seq::empty()
    }
}

/// What the checksum and size characters say.
pub open spec fn content_attr_text(c: Seq<char>) -> Seq<Seq<char>> {
    when(char_at_is(c, 2, 'c'), "checksum/content differs"@) + when(
        char_at_is(c, 3, 's'),
        "size differs"@,
    )
}

/// What the modification-time character says.
pub open spec fn time_attr_text(c: Seq<char>) -> Seq<Seq<char>> {
    if char_at_is(c, 4, 't') {
        one("modification time differs"@)
    } else if char_at_is(c, 4, 'T') {
        one("modification time will be set to transfer time"@)
    } else {
        Seq::empty()
    }
}

/// What the permission, owner and group characters say.
pub open spec fn owner_attr_text(c: Seq<char>) -> Seq<Seq<char>> {
    when(char_at_is(c, 5, 'p'), "permissions differ"@) + when(
        char_at_is(c, 6, 'o'),
        "owner differs"@,
    ) + when(char_at_is(c, 7, 'g'), "group differs"@)
}

/// What the access/create-time character says.
pub open spec fn access_attr_text(c: Seq<char>) -> Seq<Seq<char>> {
    if char_at_is(c, 8, 'u') {
        one("access time differs"@)
    } else if char_at_is(c, 8, 'n') {
        one("create time differs"@)
    } else if char_at_is(c, 8, 'b') {
        one("access and create times differ"@)
    } else {
        Seq::empty()
    }
}

/// What the ACL and extended-attribute characters say.
pub open spec fn extra_attr_text(c: Seq<char>) -> Seq<Seq<char>> {
    when(char_at_is(c, 9, 'a'), "ACL differs"@) + when(
        char_at_is(c, 10, 'x'),
        "extended attributes differ"@,
    )
}

/// What the attribute characters say.
pub open spec fn attribute_text(c: Seq<char>) -> Seq<Seq<char>> {
    content_attr_text(c) + time_attr_text(c) + owner_attr_text(c) + access_attr_text(c)
        + extra_attr_text(c)
}

/// A `+` follows the two type characters: the item is new.
pub open spec fn marks_new(c: Seq<char>) -> bool {
    exists|i: int| 2 <= i < c.len() && c[i] == '+'
}

/// The descriptions of an itemized change line.
pub open spec fn decode_spec(line: Seq<char>) -> Seq<Seq<char>> {
    let c = change_code(line);
    if starts_with(c, "*deleting"@) {
        one("destination item would be deleted"@)
    } else if marks_new(c) {
        update_type_text(c) + file_type_text(c) + one("destination item is new"@)
    } else {
        update_type_text(c) + file_type_text(c) + attribute_text(c)
    }
}

fn code_of(line: &Vec<char>) -> (c: Vec<char>)
    ensures
        c@ == change_code(line@),
{
    match char_count_at(line, 11) {
        Some(k) => {
            proof {
                lemma_count_le_len(line@, 11, k as nat);
            }
            sub_chars(line, 0, k)
        },
        None => sub_chars(line, 0, line.len()),
    }
}

fn at_is(c: &Vec<char>, i: usize, ch: char) -> (b: bool)
    ensures
        b == char_at_is(c@, i as int, ch),
{
    i < c.len() && c[i] == ch
}

fn push_text(v: &mut Vec<String>, s: &str)
    ensures
        final(v)@.map_values(|x: String| x@) == old(v)@.map_values(|x: String| x@).push(s@),
{
    v.push(String::from_str(s));
    assert(v@.map_values(|x: String| x@) =~= old(v)@.map_values(|x: String| x@).push(s@));
}

fn plus_after_types(c: &Vec<char>) -> (b: bool)
    ensures
        b == marks_new(c@),
{
    let mut i: usize = 2;
    while i < c.len()
        invariant
            2 <= i,
            forall|k: int| 2 <= k < i && k < c@.len() ==> c@[k] != '+',
        decreases c@.len() - i,
    {
        if c[i] == '+' {
            return true;
        }
        i = i + 1;
    }
    false
}

fn push_update_type(d: &mut Vec<String>, c: &Vec<char>)
    ensures
        final(d)@.map_values(|x: String| x@) == old(d)@.map_values(|x: String| x@)
            + update_type_text(c@),
{
    let ghost before = d@.map_values(|x: String| x@);
    if at_is(c, 0, '>') || at_is(c, 0, '<') {
        push_text(d, "file data would be transferred from source to destination");
    } else if at_is(c, 0, 'c') {
        push_text(d, "destination item would be created or locally changed");
    } else if at_is(c, 0, '.') {
        push_text(d, "file data is unchanged, but attributes may change");
    } else if at_is(c, 0, '*') {
        push_text(d, "rsync emitted a special message");
    }
    assert(d@.map_values(|x: String| x@) =~= before + update_type_text(c@));
}

fn push_file_type(d: &mut Vec<String>, c: &Vec<char>)
    ensures
        final(d)@.map_values(|x: String| x@) == old(d)@.map_values(|x: String| x@)
            + file_type_text(c@),
{
    let ghost before = d@.map_values(|x: String| x@);
    if at_is(c, 1, 'f') {
        push_text(d, "regular file");
    } else if at_is(c, 1, 'd') {
        push_text(d, "directory");
    } else if at_is(c, 1, 'L') {
        push_text(d, "symbolic link");
    } else if at_is(c, 1, 'D') {
        push_text(d, "device");
    } else if at_is(c, 1, 'S') {
        push_text(d, "special file");
    }
    assert(d@.map_values(|x: String| x@) =~= before + file_type_text(c@));
}

fn push_when(d: &mut Vec<String>, b: bool, s: &str)
    ensures
        final(d)@.map_values(|x: String| x@) == old(d)@.map_values(|x: String| x@) + when(b, s@),
{
    if b {
        push_text(d, s);
    } else {
        assert(d@.map_values(|x: String| x@) =~= d@.map_values(|x: String| x@) + when(b, s@));
    }
}

fn push_content_attrs(d: &mut Vec<String>, c: &Vec<char>)
    ensures
        final(d)@.map_values(|x: String| x@) == old(d)@.map_values(|x: String| x@)
            + content_attr_text(c@),
{
    let ghost b0 = d@.map_values(|x: String| x@);
    push_when(d, at_is(c, 2, 'c'), "checksum/content differs");
    push_when(d, at_is(c, 3, 's'), "size differs");
    assert(d@.map_values(|x: String| x@) =~= b0 + content_attr_text(c@));
}

fn push_time_attr(d: &mut Vec<String>, c: &Vec<char>)
    ensures
        final(d)@.map_values(|x: String| x@) == old(d)@.map_values(|x: String| x@)
            + time_attr_text(c@),
{
    let ghost b0 = d@.map_values(|x: String| x@);
    if at_is(c, 4, 't') {
        push_text(d, "modification time differs");
    } else if at_is(c, 4, 'T') {
        push_text(d, "modification time will be set to transfer time");
    }
    assert(d@.map_values(|x: String| x@) =~= b0 + time_attr_text(c@));
}

fn push_owner_attrs(d: &mut Vec<String>, c: &Vec<char>)
    ensures
        final(d)@.map_values(|x: String| x@) == old(d)@.map_values(|x: String| x@)
            + owner_attr_text(c@),
{
    let ghost b0 = d@.map_values(|x: String| x@);
    push_when(d, at_is(c, 5, 'p'), "permissions differ");
    push_when(d, at_is(c, 6, 'o'), "owner differs");
    push_when(d, at_is(c, 7, 'g'), "group differs");
    assert(d@.map_values(|x: String| x@) =~= b0 + owner_attr_text(c@));
}

fn push_access_attr(d: &mut Vec<String>, c: &Vec<char>)
    ensures
        final(d)@.map_values(|x: String| x@) == old(d)@.map_values(|x: String| x@)
            + access_attr_text(c@),
{
    let ghost b0 = d@.map_values(|x: String| x@);
    if at_is(c, 8, 'u') {
        push_text(d, "access time differs");
    } else if at_is(c, 8, 'n') {
        push_text(d, "create time differs");
    } else if at_is(c, 8, 'b') {
        push_text(d, "access and create times differ");
    }
    assert(d@.map_values(|x: String| x@) =~= b0 + access_attr_text(c@));
}

fn push_extra_attrs(d: &mut Vec<String>, c: &Vec<char>)
    ensures
        final(d)@.map_values(|x: String| x@) == old(d)@.map_values(|x: String| x@)
            + extra_attr_text(c@),
{
    let ghost b0 = d@.map_values(|x: String| x@);
    push_when(d, at_is(c, 9, 'a'), "ACL differs");
    push_when(d, at_is(c, 10, 'x'), "extended attributes differ");
    assert(d@.map_values(|x: String| x@) =~= b0 + extra_attr_text(c@));
}

fn push_attributes(d: &mut Vec<String>, c: &Vec<char>)
    ensures
        final(d)@.map_values(|x: String| x@) == old(d)@.map_values(|x: String| x@)
            + attribute_text(c@),
{
    let ghost b0 = d@.map_values(|x: String| x@);
    let ghost t1 = content_attr_text(c@);
    let ghost t2 = t1 + time_attr_text(c@);
    let ghost t3 = t2 + owner_attr_text(c@);
    let ghost t4 = t3 + access_attr_text(c@);
    push_content_attrs(d, c);
    push_time_attr(d, c);
    assert(d@.map_values(|x: String| x@) =~= b0 + t2);
    push_owner_attrs(d, c);
    assert(d@.map_values(|x: String| x@) =~= b0 + t3);
    push_access_attr(d, c);
    assert(d@.map_values(|x: String| x@) =~= b0 + t4);
    push_extra_attrs(d, c);
    assert(d@.map_values(|x: String| x@) =~= b0 + attribute_text(c@));
}

/// Describes in words the change that an itemized rsync line reports.
pub fn decode_itemized_change(line: &str) -> (r: Vec<String>)
    ensures
        r@.map_values(|s: String| s@) == decode_spec(line@),
{
    let l = chars_of(line);
    let c = code_of(&l);
    let mut d: Vec<String> = Vec::new();
    if has_prefix(&c, &chars_of("*deleting")) {
        push_text(&mut d, "destination item would be deleted");
        assert(d@.map_values(|x: String| x@) =~= one("destination item would be deleted"@));
        return d;
    }
    assert(d@.map_values(|x: String| x@) =~= Seq::<Seq<char>>::empty());
    push_update_type(&mut d, &c);
    push_file_type(&mut d, &c);
    let ghost head = update_type_text(c@) + file_type_text(c@);
    assert(d@.map_values(|x: String| x@) =~= head);
    if plus_after_types(&c) {
        push_text(&mut d, "destination item is new");
        return d;
    }
    push_attributes(&mut d, &c);
    d
}

// ---- which changes need a content diff ----

/// The change code of `line` (its first 11 bytes) exists and holds a `+`.
pub open spec fn line_is_new(line: Seq<char>) -> bool {
    match char_count_at_byte(line, 11) {
        Some(k) => has_char(line.take(k as int), '+'),
        None => false,
    }
}

/// Byte `idx` of the change code of `line` is the ASCII character `ch`.
pub open spec fn code_byte_is(line: Seq<char>, idx: nat, ch: char) -> bool {
    &&& char_count_at_byte(line, 11) is Some
    &&& char_count_at_byte(line, idx) matches Some(m)
    &&& m < line.len()
    &&& line[m as int] == ch
}

/// Some line reports a new item.
pub open spec fn change_is_new(ls: Seq<Seq<char>>) -> bool {
    exists|i: int| 0 <= i < ls.len() && line_is_new(#[trigger] ls[i])
}

/// A content diff is worth showing: the file is deleted, or a line reports a
/// new item, a checksum change or a size change.
pub open spec fn needs_content_diff(kind: ChangeKind, ls: Seq<Seq<char>>) -> bool {
    kind == ChangeKind::Deleted || exists|i: int|
        0 <= i < ls.len() && (line_is_new(#[trigger] ls[i]) || code_byte_is(ls[i], 2, 'c')
            || code_byte_is(ls[i], 3, 's'))
}

fn line_is_new_exec(l: &Vec<char>) -> (b: bool)
    ensures
        b == line_is_new(l@),
{
    match char_count_at(l, 11) {
        Some(k) => {
            proof {
                lemma_count_le_len(l@, 11, k as nat);
            }
            contains_char(&sub_chars(l, 0, k), '+')
        },
        None => false,
    }
}

fn code_byte_is_exec(l: &Vec<char>, idx: usize, ch: char) -> (b: bool)
    requires
        idx <= 10,
    ensures
        b == code_byte_is(l@, idx as nat, ch),
{
    if char_count_at(l, 11).is_none() {
        return false;
    }
    match char_count_at(l, idx) {
        Some(m) => m < l.len() && l[m] == ch,
        None => false,
    }
}

/// Whether one of the itemized lines reports a new item.
pub fn itemized_change_is_new(lines: &Vec<String>) -> (b: bool)
    ensures
        b == change_is_new(lines@.map_values(|s: String| s@)),
{
    let ghost lv = lines@.map_values(|s: String| s@);
    let mut i: usize = 0;
    while i < lines.len()
        invariant
            i <= lines@.len(),
            lv == lines@.map_values(|s: String| s@),
            forall|k: int| 0 <= k < i ==> !line_is_new(#[trigger] lv[k]),
        decreases lines@.len() - i,
    {
        assert(lv[i as int] == lines@[i as int]@);
        if line_is_new_exec(&chars_of(lines[i].as_str())) {
            return true;
        }
        i = i + 1;
    }
    false
}

/// Whether the destination diff pane should show a content diff for a
/// candidate whose itemized lines are `lines`.
pub fn itemized_change_needs_content_diff(candidate: &Candidate, lines: &Vec<String>) -> (b: bool)
    ensures
        b == needs_content_diff(candidate.kind, lines@.map_values(|s: String| s@)),
{
    if candidate.kind == ChangeKind::Deleted {
        return true;
    }
    let ghost lv = lines@.map_values(|s: String| s@);
    let mut i: usize = 0;
    while i < lines.len()
        invariant
            i <= lines@.len(),
            lv == lines@.map_values(|s: String| s@),
            candidate.kind != ChangeKind::Deleted,
            forall|k: int|
                0 <= k < i ==> !(line_is_new(#[trigger] lv[k]) || code_byte_is(lv[k], 2, 'c')
                    || code_byte_is(lv[k], 3, 's')),
        decreases lines@.len() - i,
    {
        assert(lv[i as int] == lines@[i as int]@);
        let l = chars_of(lines[i].as_str());
        if line_is_new_exec(&l) || code_byte_is_exec(&l, 2, 'c') || code_byte_is_exec(&l, 3, 's') {
            return true;
        }
        i = i + 1;
    }
    false
}

/// The selected paths whose destination copy must be fetched for a content
/// diff: those that need a diff and are not new at the destination.
pub open spec fn snapshot_paths(selected: Seq<CandidateView>, stdout: Seq<char>) -> Seq<Seq<char>>
    decreases selected.len(),
{
    if selected.len() == 0 {
        Seq::empty()
    } else {
        let c = selected.last();
        let ls = matching_lines(stdout, c.path);
        let rest = snapshot_paths(selected.drop_last(), stdout);
        if needs_content_diff(c.kind, ls) && !change_is_new(ls) {
            rest.push(c.path)
        } else {
            rest
        }
    }
}

/// The paths of the selected files whose destination copy must be fetched
/// to show their content diff.
pub fn paths_requiring_destination_snapshot(selected: &Vec<Candidate>, stdout: &str) -> (r: Vec<String>)
    requires
        selected@.len() > 0 ==> itemized_output_ok(stdout@),
    ensures
        r@.map_values(|s: String| s@) == snapshot_paths(candidate_views(selected@), stdout@),
{
    let ghost sv = candidate_views(selected@);
    let mut out: Vec<String> = Vec::new();
    let mut i: usize = 0;
    assert(sv.take(0) =~= Seq::<CandidateView>::empty());
    assert(out@.map_values(|s: String| s@) =~= Seq::<Seq<char>>::empty());
    while i < selected.len()
        invariant
            i <= selected@.len(),
            sv == candidate_views(selected@),
            selected@.len() > 0 ==> itemized_output_ok(stdout@),
            out@.map_values(|s: String| s@) == snapshot_paths(sv.take(i as int), stdout@),
        decreases selected@.len() - i,
    {
        let c = &selected[i];
        let ls = matching_itemized_lines(stdout, c.path.as_str());
        let ghost before = out@.map_values(|s: String| s@);
        assert(sv.take(i + 1).drop_last() =~= sv.take(i as int));
        assert(sv.take(i + 1).last() == c@);
        if itemized_change_needs_content_diff(c, &ls) && !itemized_change_is_new(&ls) {
            out.push(c.path.clone());
            assert(out@.map_values(|s: String| s@) =~= before.push(c.path@));
        }
        i = i + 1;
    }
    assert(sv.take(i as int) =~= sv);
    out
}

/// `target` used as the source of a fetch: with a trailing `/`.
pub open spec fn source_root(target: Seq<char>) -> Seq<char> {
    if target.len() > 0 && target.last() == '/' {
        target
    } else {
        target.push('/')
    }
}

/// The deploy target with a trailing `/`, so that rsync copies its contents.
pub fn target_as_source_root(target: &str) -> (r: String)
    ensures
        r@ == source_root(target@),
{
    let t = chars_of(target);
    let mut r = String::from_str(target);
    if t.len() > 0 && t[t.len() - 1] == '/' {
        r
    } else {
        push_char(&mut r, '/');
        r
    }
}

/// A unified diff with its `---`/`+++` header lines replaced by the given
/// labels; other text unchanged.
pub open spec fn relabeled(diff: Seq<char>, old_label: Seq<char>, new_label: Seq<char>) -> Seq<char> {
    let ls = lines(diff);
    if ls.len() >= 2 && starts_with(ls[0], "--- "@) && starts_with(ls[1], "+++ "@) {
        "--- "@ + old_label + "\n"@ + "+++ "@ + new_label + "\n"@ + each_line(ls.skip(2), ""@)
    } else {
        diff
    }
}

/// Replaces the file names in a unified diff's header with `old_label` and
/// `new_label`.
pub fn relabel_unified_diff(diff: &str, old_label: &str, new_label: &str) -> (r: String)
    ensures
        r@ == relabeled(diff@, old_label@, new_label@),
{
    let ls = split_lines(&chars_of(diff));
    if ls.len() >= 2 && has_prefix(&ls[0], &chars_of("--- ")) && has_prefix(
        &ls[1],
        &chars_of("+++ "),
    ) {
        assert(views(ls@)[0] == ls@[0]@);
        assert(views(ls@)[1] == ls@[1]@);
        let mut r = String::from_str("--- ");
        r.append(old_label);
        r.append("\n");
        r.append("+++ ");
        r.append(new_label);
        r.append("\n");
        push_each_line(&mut r, &ls, 2, "");
        r
    } else {
        proof {
            if ls@.len() >= 2 {
                assert(views(ls@)[0] == ls@[0]@);
                assert(views(ls@)[1] == ls@[1]@);
            }
        }
        String::from_str(diff)
    }
}

// ---- running rsync ----

/// What rsync supports.
#[derive(Debug)]
pub struct RsyncCapabilities {
    /// The first line of `rsync --version`, trimmed.
    pub version: String,
    /// `--delete-missing-args` appears in `rsync --help`.
    pub delete_missing_args: bool,
}

/// The version line that `rsync --version` printed.
pub open spec fn version_line(version_stdout: Seq<char>) -> Seq<char> {
    if lines(version_stdout).len() > 0 {
        trim(lines(version_stdout)[0])
    } else {
        trim("rsync version unknown"@)
    }
}

/// What rsync supports, from the output of `rsync --version` and `rsync --help`.
pub fn rsync_capabilities_from(version_stdout: &str, help_stdout: &str, help_stderr: &str) -> (c: RsyncCapabilities)
    ensures
        c.version@ == version_line(version_stdout@),
        c.delete_missing_args == contains_seq(
            help_stdout@ + "\n"@ + help_stderr@,
            "--delete-missing-args"@,
        ),
{
    let ls = split_lines(&chars_of(version_stdout));
    let version = if ls.len() > 0 {
        assert(views(ls@)[0] == ls@[0]@);
        string_from_chars(&trim_chars(&ls[0]))
    } else {
        crate::text::trimmed("rsync version unknown")
    };
    let mut help = String::from_str(help_stdout);
    help.append("\n");
    help.append(help_stderr);
    let delete_missing_args = contains_chars(&chars_of(help.as_str()), &chars_of("--delete-missing-args"));
    RsyncCapabilities { version, delete_missing_args }
}

/// Some selected file is deleted in Git.
pub open spec fn any_deleted(selected: Seq<CandidateView>) -> bool {
    exists|i: int| 0 <= i < selected.len() && (#[trigger] selected[i]).kind == ChangeKind::Deleted
}

/// Whether a selected file is deleted in Git.
pub fn has_deleted_files(selected: &Vec<Candidate>) -> (b: bool)
    ensures
        b == any_deleted(candidate_views(selected@)),
{
    let ghost sv = candidate_views(selected@);
    let mut i: usize = 0;
    while i < selected.len()
        invariant
            i <= selected@.len(),
            sv == candidate_views(selected@),
            forall|k: int| 0 <= k < i ==> (#[trigger] sv[k]).kind != ChangeKind::Deleted,
        decreases selected@.len() - i,
    {
        assert(sv[i as int] == selected@[i as int]@);
        if selected[i].kind == ChangeKind::Deleted {
            return true;
        }
        i = i + 1;
    }
    false
}

/// The arguments of an rsync run (before the file list, source and target).
pub open spec fn rsync_args_spec(has_deleted: bool, dry_run: bool) -> Seq<Seq<char>> {
    seq!["-a"@, "-i"@, "--checksum"@, "--out-format=%i %n%L"@, "--from0"@] + if has_deleted {
        seq!["--delete-missing-args"@]
    } else {
        Seq::empty()
    } + if dry_run {
        seq!["--dry-run"@]
    } else {
        Seq::empty()
    }
}

/// The rsync arguments: itemized checksum comparison of a NUL-separated file
/// list, deleting files that are missing at the source when a deleted file is
/// selected, and only previewing on a dry run.
pub fn rsync_args(has_deleted: bool, dry_run: bool) -> (r: Vec<String>)
    ensures
        r@.map_values(|s: String| s@) == rsync_args_spec(has_deleted, dry_run),
{
    let mut args: Vec<String> = Vec::new();
    push_text(&mut args, "-a");
    push_text(&mut args, "-i");
    push_text(&mut args, "--checksum");
    push_text(&mut args, "--out-format=%i %n%L");
    push_text(&mut args, "--from0");
    let ghost base = args@.map_values(|s: String| s@);
    assert(base =~= seq!["-a"@, "-i"@, "--checksum"@, "--out-format=%i %n%L"@, "--from0"@]);
    if has_deleted {
        push_text(&mut args, "--delete-missing-args");
    }
    let ghost mid = args@.map_values(|s: String| s@);
    assert(mid =~= base + if has_deleted {
        seq!["--delete-missing-args"@]
    } else {
        Seq::empty()
    });
    if dry_run {
        push_text(&mut args, "--dry-run");
    }
    assert(args@.map_values(|s: String| s@) =~= rsync_args_spec(has_deleted, dry_run));
    args
}

/// The heading of a run's report.
pub open spec fn mode_text(dry_run: bool) -> Seq<char> {
    if dry_run {
        "DRY RUN"@
    } else {
        "RUN"@
    }
}

/// The heading of a run's report: `DRY RUN` or `RUN`.
pub fn run_mode(dry_run: bool) -> (s: &'static str)
    ensures
        s@ == mode_text(dry_run),
{
    if dry_run {
        "DRY RUN"
    } else {
        "RUN"
    }
}

// ---- reports ----

/// One line per selected file: its marker, its padded kind label and its path.
pub open spec fn selected_lines(sel: Seq<CandidateView>) -> Seq<char>
    decreases sel.len(),
{
    if sel.len() == 0 {
        Seq::empty()
    } else {
        let c = sel.last();
        selected_lines(sel.drop_last()) + c.kind.short_spec()@ + " "@ + pad_right(
            c.kind.label_spec()@,
            8,
        ) + " "@ + c.path + "\n"@
    }
}

fn push_selected_lines(s: &mut String, sel: &Vec<Candidate>)
    ensures
        final(s)@ == old(s)@ + selected_lines(candidate_views(sel@)),
{
    let ghost sv = candidate_views(sel@);
    let mut i: usize = 0;
    assert(sv.take(0) =~= Seq::<CandidateView>::empty());
    while i < sel.len()
        invariant
            i <= sel@.len(),
            sv == candidate_views(sel@),
            s@ == old(s)@ + selected_lines(sv.take(i as int)),
        decreases sel@.len() - i,
    {
        let c = &sel[i];
        s.append(c.kind.short());
        s.append(" ");
        push_padded(s, c.kind.label(), 8);
        s.append(" ");
        s.append(c.path.as_str());
        s.append("\n");
        proof {
            assert(sv.take(i + 1).drop_last() =~= sv.take(i as int));
            assert(sv.take(i + 1).last() == c@);
        }
        i = i + 1;
    }
    assert(sv.take(i as int) =~= sv);
}

/// `text`, or `(empty)` when it is blank.
pub open spec fn or_empty(text: Seq<char>) -> Seq<char> {
    if trim(text).len() == 0 {
        "(empty)\n"@
    } else {
        text
    }
}

fn push_or_empty(s: &mut String, text: &str)
    ensures
        final(s)@ == old(s)@ + or_empty(text@),
{
    if trim_chars(&chars_of(text)).len() == 0 {
        s.append("(empty)\n");
    } else {
        s.append(text);
    }
}

/// Some selected file has path `p`.
pub open spec fn is_selected(sel: Seq<CandidateView>, p: Seq<char>) -> bool {
    exists|i: int| 0 <= i < sel.len() && (#[trigger] sel[i]).path == p
}

/// The report can be rendered with the file `focus` under the cursor: its
/// itemized lines are read only when that file is selected.
pub open spec fn focus_renders(r: RsyncRunReport, focus: Option<Seq<char>>) -> bool {
    (focus matches Some(p) && is_selected(candidate_views(r.selected@), p)) ==> itemized_output_ok(
        r.stdout@,
    )
}

fn selected_contains(sel: &Vec<Candidate>, p: &str) -> (b: bool)
    ensures
        b == is_selected(candidate_views(sel@), p@),
{
    let ghost sv = candidate_views(sel@);
    let pv = chars_of(p);
    let mut i: usize = 0;
    while i < sel.len()
        invariant
            i <= sel@.len(),
            sv == candidate_views(sel@),
            pv@ == p@,
            forall|k: int| 0 <= k < i ==> (#[trigger] sv[k]).path != p@,
        decreases sel@.len() - i,
    {
        assert(sv[i as int] == sel@[i as int]@);
        if eq_str(&pv, sel[i].path.as_str()) {
            return true;
        }
        i = i + 1;
    }
    false
}

impl RsyncRunReport {
    /// Whether the report can be rendered with the file `focus` under the
    /// cursor.
    pub fn renders_for(&self, focus: Option<&str>) -> (b: bool)
        ensures
            b == focus_renders(*self, opt_view(focus)),
    {
        match focus {
            Some(p) => !selected_contains(&self.selected, p) || itemized_output_is_ok(
                self.stdout.as_str(),
            ),
            None => true,
        }
    }
}

/// The decoded descriptions of each line, as `  - description` lines.
pub open spec fn decoded_lines(ls: Seq<Seq<char>>) -> Seq<char>
    decreases ls.len(),
{
    if ls.len() == 0 {
        Seq::empty()
    } else {
        decoded_lines(ls.drop_last()) + each_line(decode_spec(ls.last()), "  - "@)
    }
}

/// The rsync pane's section about the file under the cursor.
pub open spec fn current_file_text(
    sel: Seq<CandidateView>,
    stdout: Seq<char>,
    focus: Option<Seq<char>>,
) -> Seq<char> {
    match focus {
        None => "(no current file)\n"@,
        Some(p) => if !is_selected(sel, p) {
            p + "\n\nCurrent file is not selected, so it is not included in the rsync diff.\n"@
        } else {
            let ml = matching_lines(stdout, p);
            p + "\n\n"@ + if ml.len() == 0 {
                "(no destination change for current file)\n"@
            } else {
                "Itemized rsync change:\n"@ + each_line(ml, ""@) + "\nDecoded:\n"@ + decoded_lines(
                    ml,
                )
            }
        },
    }
}

fn vec_of_strings_chars(v: &Vec<String>) -> (r: Vec<Vec<char>>)
    ensures
        views(r@) == v@.map_values(|s: String| s@),
{
    let mut out: Vec<Vec<char>> = Vec::new();
    let mut i: usize = 0;
    while i < v.len()
        invariant
            i <= v@.len(),
            views(out@) == v@.take(i as int).map_values(|s: String| s@),
        decreases v@.len() - i,
    {
        let ghost before = views(out@);
        let c = chars_of(v[i].as_str());
        out.push(c);
        assert(views(out@) =~= before.push(v@[i as int]@));
        assert(v@.take(i + 1) =~= v@.take(i as int).push(v@[i as int]));
        assert(v@.take(i + 1).map_values(|s: String| s@) =~= v@.take(i as int).map_values(
            |s: String| s@,
        ).push(v@[i as int]@));
        i = i + 1;
    }
    assert(v@.take(i as int) =~= v@);
    out
}

fn push_decoded_lines(s: &mut String, ls: &Vec<String>)
    ensures
        final(s)@ == old(s)@ + decoded_lines(ls@.map_values(|x: String| x@)),
{
    let ghost lv = ls@.map_values(|x: String| x@);
    let mut i: usize = 0;
    assert(lv.take(0) =~= Seq::<Seq<char>>::empty());
    while i < ls.len()
        invariant
            i <= ls@.len(),
            lv == ls@.map_values(|x: String| x@),
            s@ == old(s)@ + decoded_lines(lv.take(i as int)),
        decreases ls@.len() - i,
    {
        let descriptions = decode_itemized_change(ls[i].as_str());
        let dv = vec_of_strings_chars(&descriptions);
        push_each_line(s, &dv, 0, "  - ");
        proof {
            assert(views(dv@).skip(0) =~= views(dv@));
            assert(lv.take(i + 1).drop_last() =~= lv.take(i as int));
            assert(lv.take(i + 1).last() == ls@[i as int]@);
        }
        i = i + 1;
    }
    assert(lv.take(i as int) =~= lv);
}

/// The result of an rsync run (or dry run), as the rsync pane shows it.
#[derive(Debug)]
pub struct RsyncRunReport {
    pub mode: String,
    pub repo_root: String,
    pub target: String,
    pub selected: Vec<Candidate>,
    pub args: Vec<String>,
    pub version: String,
    pub delete_missing_args: bool,
    pub stdout: String,
    pub stderr: String,
    /// The content diff of each selected path that has one.
    pub content_diffs: Vec<(String, String)>,
}

/// The content diff recorded for `p` (the last one recorded).
pub open spec fn diff_for(diffs: Seq<(String, String)>, p: Seq<char>) -> Option<Seq<char>>
    decreases diffs.len(),
{
    if diffs.len() == 0 {
        None
    } else if diffs.last().0@ == p {
        Some(diffs.last().1@)
    } else {
        diff_for(diffs.drop_last(), p)
    }
}

/// The text of the rsync pane (before truncation).
pub open spec fn status_text(r: RsyncRunReport, focus: Option<Seq<char>>) -> Seq<char> {
    r.mode@ + "\n"@ + "repo:   "@ + r.repo_root@ + "\n"@ + "target: "@ + r.target@ + "\n"@
        + "files:  "@ + decimal(r.selected@.len()) + "\n\n"@ + "rsync:  "@ + r.version@ + "\n"@
        + "delete support: "@ + (if r.delete_missing_args {
        "--delete-missing-args"@
    } else {
        "not available"@
    }) + "\n\n"@ + "comparison: checksum\n\n"@ + "$ rsync "@ + join_on(
        r.args@.map_values(|s: String| s@),
        ' ',
    ) + " --files-from=<tempfile> ./ "@ + r.target@ + "\n\n"@ + "CURRENT FILE RSYNC DIFF\n"@
        + "-----------------------\n"@ + current_file_text(
        candidate_views(r.selected@),
        r.stdout@,
        focus,
    ) + "\nSELECTED FILES\n"@ + "--------------\n"@ + selected_lines(candidate_views(r.selected@))
        + "\nTOTAL RSYNC DIFF\n"@ + "----------------\n"@ + or_empty(r.stdout@)
        + "\nRSYNC STDERR\n"@ + "------------\n"@ + or_empty(r.stderr@)
}

/// The text of the destination-diff pane.
pub open spec fn content_diff_text(r: RsyncRunReport, focus: Option<Seq<char>>) -> Seq<char> {
    match focus {
        None => "No current file.\n"@,
        Some(p) => if !is_selected(candidate_views(r.selected@), p) {
            p + "\n\n"@
                + "Current file is not selected, so it is not included in the destination diff.\n"@
        } else {
            truncated(
                p + "\n\n"@ + if matching_lines(r.stdout@, p).len() == 0 {
                    "No destination content change for current file.\n"@
                } else {
                    match diff_for(r.content_diffs@, p) {
                        Some(d) => d,
                        None => "No textual content diff is available for this rsync change.\n"@,
                    }
                },
                200000,
            )
        },
    }
}

pub open spec fn opt_view(o: Option<&str>) -> Option<Seq<char>> {
    match o {
        Some(s) => Some(s@),
        None => None,
    }
}

fn push_joined(s: &mut String, parts: &Vec<String>)
    ensures
        final(s)@ == old(s)@ + join_on(parts@.map_values(|x: String| x@), ' '),
{
    let ghost pv = parts@.map_values(|x: String| x@);
    if parts.len() == 0 {
        assert(join_on(pv, ' ') =~= Seq::<char>::empty());
        assert(s@ =~= old(s)@ + Seq::<char>::empty());
        return;
    }
    s.append(parts[0].as_str());
    let mut i: usize = 1;
    assert(pv.take(1) =~= seq![pv[0]]);
    while i < parts.len()
        invariant
            1 <= i <= parts@.len(),
            pv == parts@.map_values(|x: String| x@),
            s@ == old(s)@ + join_on(pv.take(i as int), ' '),
        decreases parts@.len() - i,
    {
        proof {
            crate::path_order::lemma_join_concat(pv.take(i as int), seq![pv[i as int]], ' ');
            assert(pv.take(i as int) + seq![pv[i as int]] =~= pv.take(i + 1));
        }
        push_char(s, ' ');
        s.append(parts[i].as_str());
        i = i + 1;
    }
    assert(pv.take(i as int) =~= pv);
}

impl RsyncRunReport {
    fn push_current_file_status(&self, report: &mut String, focus_path: Option<&str>)
        requires
            focus_renders(*self, opt_view(focus_path)),
        ensures
            final(report)@ == old(report)@ + current_file_text(
                candidate_views(self.selected@),
                self.stdout@,
                opt_view(focus_path),
            ),
    {
        let path = match focus_path {
            Some(p) => p,
            None => {
                report.append("(no current file)\n");
                return;
            },
        };
        if !selected_contains(&self.selected, path) {
            report.append(path);
            report.append(
                "\n\nCurrent file is not selected, so it is not included in the rsync diff.\n",
            );
            return;
        }
        let matching = matching_itemized_lines(self.stdout.as_str(), path);
        report.append(path);
        report.append("\n\n");
        let ghost mid = report@;
        if matching.len() == 0 {
            report.append("(no destination change for current file)\n");
        } else {
            report.append("Itemized rsync change:\n");
            let mv = vec_of_strings_chars(&matching);
            push_each_line(report, &mv, 0, "");
            report.append("\nDecoded:\n");
            push_decoded_lines(report, &matching);
            proof {
                assert(views(mv@).skip(0) =~= views(mv@));
            }
        }
    }

    fn push_header(&self, report: &mut String)
        ensures
            final(report)@ == old(report)@ + self.mode@ + "\n"@ + "repo:   "@ + self.repo_root@
                + "\n"@ + "target: "@ + self.target@ + "\n"@ + "files:  "@ + decimal(
                self.selected@.len(),
            ) + "\n\n"@ + "rsync:  "@ + self.version@ + "\n"@ + "delete support: "@ + (if self.delete_missing_args {
                "--delete-missing-args"@
            } else {
                "not available"@
            }) + "\n\n"@ + "comparison: checksum\n\n"@ + "$ rsync "@ + join_on(
                self.args@.map_values(|s: String| s@),
                ' ',
            ) + " --files-from=<tempfile> ./ "@ + self.target@ + "\n\n"@,
    {
        report.append(self.mode.as_str());
        report.append("\n");
        report.append("repo:   ");
        report.append(self.repo_root.as_str());
        report.append("\n");
        report.append("target: ");
        report.append(self.target.as_str());
        report.append("\n");
        report.append("files:  ");
        push_decimal(report, self.selected.len());
        report.append("\n\n");
        report.append("rsync:  ");
        report.append(self.version.as_str());
        report.append("\n");
        report.append("delete support: ");
        if self.delete_missing_args {
            report.append("--delete-missing-args");
        } else {
            report.append("not available");
        }
        report.append("\n\n");
        report.append("comparison: checksum\n\n");
        report.append("$ rsync ");
        push_joined(report, &self.args);
        report.append(" --files-from=<tempfile> ./ ");
        report.append(self.target.as_str());
        report.append("\n\n");
    }

    /// The rsync pane: the run's settings, what it reports on the file under
    /// the cursor, the selected files, and rsync's output, cut down to
    /// 200 000 bytes.
    pub fn render_status(&self, focus_path: Option<&str>) -> (r: String)
        requires
            focus_renders(*self, opt_view(focus_path)),
        ensures
            r@ == truncated(status_text(*self, opt_view(focus_path)), 200000),
    {
        let mut report = String::new();
        self.push_header(&mut report);
        report.append("CURRENT FILE RSYNC DIFF\n");
        report.append("-----------------------\n");
        self.push_current_file_status(&mut report, focus_path);
        report.append("\nSELECTED FILES\n");
        report.append("--------------\n");
        push_selected_lines(&mut report, &self.selected);
        report.append("\nTOTAL RSYNC DIFF\n");
        report.append("----------------\n");
        push_or_empty(&mut report, self.stdout.as_str());
        report.append("\nRSYNC STDERR\n");
        report.append("------------\n");
        push_or_empty(&mut report, self.stderr.as_str());
        assert(report@ =~= status_text(*self, opt_view(focus_path)));
        truncate_text(report, 200000)
    }

    fn content_diff_of(&self, path: &str) -> (r: Option<&String>)
        ensures
            match r {
                Some(d) => diff_for(self.content_diffs@, path@) == Some(d@),
                None => diff_for(self.content_diffs@, path@) is None,
            },
    {
        let pv = chars_of(path);
        let mut i = self.content_diffs.len();
        assert(self.content_diffs@.take(i as int) =~= self.content_diffs@);
        while i > 0
            invariant
                i <= self.content_diffs@.len(),
                pv@ == path@,
                diff_for(self.content_diffs@, path@) == diff_for(
                    self.content_diffs@.take(i as int),
                    path@,
                ),
            decreases i,
        {
            assert(self.content_diffs@.take(i as int).drop_last() =~= self.content_diffs@.take(
                i - 1,
            ));
            if eq_str(&pv, self.content_diffs[i - 1].0.as_str()) {
                return Some(&self.content_diffs[i - 1].1);
            }
            i = i - 1;
        }
        None
    }

    /// The destination-diff pane for the file under the cursor.
    pub fn render_content_diff(&self, focus_path: Option<&str>) -> (r: String)
        requires
            focus_renders(*self, opt_view(focus_path)),
        ensures
            r@ == content_diff_text(*self, opt_view(focus_path)),
    {
        let mut report = String::new();
        let path = match focus_path {
            Some(p) => p,
            None => {
                report.append("No current file.\n");
                return report;
            },
        };
        report.append(path);
        report.append("\n\n");
        if !selected_contains(&self.selected, path) {
            report.append(
                "Current file is not selected, so it is not included in the destination diff.\n",
            );
            return report;
        }
        let matching = matching_itemized_lines(self.stdout.as_str(), path);
        if matching.len() == 0 {
            report.append("No destination content change for current file.\n");
        } else {
            match self.content_diff_of(path) {
                Some(d) => report.append(d.as_str()),
                None => report.append(
                    "No textual content diff is available for this rsync change.\n",
                ),
            }
        }
        truncate_text(report, 200000)
    }
}

/// The report when a deleted file is selected but rsync lacks
/// `--delete-missing-args`.
pub open spec fn unsupported_text(
    dry_run: bool,
    repo_root: Seq<char>,
    target: Seq<char>,
    selected: Seq<CandidateView>,
    version: Seq<char>,
) -> Seq<char> {
    mode_text(dry_run) + "\n"@ + "repo:   "@ + repo_root + "\n"@ + "target: "@ + target + "\n"@
        + "files:  "@ + decimal(selected.len()) + "\n\n"@ + "rsync:  "@ + version + "\n"@
        + "delete support: not available\n\n"@ + "UNSUPPORTED RSYNC DELETION\n"@
        + "--------------------------\n"@
        + "At least one selected file is deleted in Git, but this rsync does not support --delete-missing-args. rdg did not run rsync because copying the remaining files while skipping deletions would leave the remote tree inconsistent.\n\n"@
        + "Upgrade rsync on the sender and, for remote targets, on the receiver too. Then rerun the dry-run before deploying.\n"@
        + "\nSELECTED FILES\n"@ + "--------------\n"@ + selected_lines(selected)
}

/// Explains why a run with a deleted file was refused, cut down to 200 000
/// bytes.
pub fn unsupported_delete_missing_args_report(
    repo_root: &str,
    target: &str,
    selected: &Vec<Candidate>,
    dry_run: bool,
    capabilities: &RsyncCapabilities,
) -> (r: String)
    ensures
        r@ == truncated(
            unsupported_text(
                dry_run,
                repo_root@,
                target@,
                candidate_views(selected@),
                capabilities.version@,
            ),
            200000,
        ),
{
    let mut report = String::new();
    report.append(run_mode(dry_run));
    report.append("\n");
    report.append("repo:   ");
    report.append(repo_root);
    report.append("\n");
    report.append("target: ");
    report.append(target);
    report.append("\n");
    report.append("files:  ");
    push_decimal(&mut report, selected.len());
    report.append("\n\n");
    report.append("rsync:  ");
    report.append(capabilities.version.as_str());
    report.append("\n");
    report.append("delete support: not available\n\n");
    report.append("UNSUPPORTED RSYNC DELETION\n");
    report.append("--------------------------\n");
    report.append(
        "At least one selected file is deleted in Git, but this rsync does not support --delete-missing-args. rdg did not run rsync because copying the remaining files while skipping deletions would leave the remote tree inconsistent.\n\n",
    );
    report.append(
        "Upgrade rsync on the sender and, for remote targets, on the receiver too. Then rerun the dry-run before deploying.\n",
    );
    report.append("\nSELECTED FILES\n");
    report.append("--------------\n");
    push_selected_lines(&mut report, selected);
    assert(report@ =~= unsupported_text(
        dry_run,
        repo_root@,
        target@,
        candidate_views(selected@),
        capabilities.version@,
    ));
    truncate_text(report, 200000)
}

// ---- planning a run ----

/// What a request to run rsync comes to.
#[derive(Debug)]
pub enum RsyncPlan {
    /// A deleted file is selected but rsync cannot delete at the destination:
    /// nothing is run, and the report says why.
    Refuse(String),
    /// Run rsync with these arguments; `mode` heads the report.
    Run { mode: String, args: Vec<String> },
}

/// Decides whether and how to run rsync for the selected files.
pub fn plan_rsync(
    repo_root: &str,
    target: &str,
    selected: &Vec<Candidate>,
    dry_run: bool,
    capabilities: &RsyncCapabilities,
) -> (p: RsyncPlan)
    ensures
        any_deleted(candidate_views(selected@)) && !capabilities.delete_missing_args <==> p is Refuse,
        p matches RsyncPlan::Refuse(report) ==> report@ == truncated(
            unsupported_text(
                dry_run,
                repo_root@,
                target@,
                candidate_views(selected@),
                capabilities.version@,
            ),
            200000,
        ),
        p matches RsyncPlan::Run { mode, args } ==> mode@ == mode_text(dry_run) && args@.map_values(
            |s: String| s@,
        ) == rsync_args_spec(any_deleted(candidate_views(selected@)), dry_run),
{
    let has_deleted = has_deleted_files(selected);
    if has_deleted && !capabilities.delete_missing_args {
        return RsyncPlan::Refuse(
            unsupported_delete_missing_args_report(repo_root, target, selected, dry_run, capabilities),
        );
    }
    RsyncPlan::Run { mode: String::from_str(run_mode(dry_run)), args: rsync_args(has_deleted, dry_run) }
}

/// The bytes of a NUL-separated file list: each path's UTF-8 bytes followed by a NUL.
pub open spec fn nul_list(paths: Seq<Seq<char>>) -> Seq<u8>
    decreases paths.len(),
{
    if paths.len() == 0 {
        Seq::empty()
    } else {
        nul_list(paths.drop_last()) + vstd::utf8::encode_utf8(paths.last()) + seq![0u8]
    }
}

/// The contents of the `--files-from` list for the given paths.
pub fn files_from_list(paths: &Vec<String>) -> (r: Vec<u8>)
    ensures
        r@ == nul_list(paths@.map_values(|s: String| s@)),
{
    let ghost pv = paths@.map_values(|s: String| s@);
    let mut out: Vec<u8> = Vec::new();
    let mut i: usize = 0;
    assert(pv.take(0) =~= Seq::<Seq<char>>::empty());
    while i < paths.len()
        invariant
            i <= paths@.len(),
            pv == paths@.map_values(|s: String| s@),
            out@ == nul_list(pv.take(i as int)),
        decreases paths@.len() - i,
    {
        let bytes = paths[i].as_str().as_bytes();
        let ghost before = out@;
        let mut j: usize = 0;
        while j < bytes.len()
            invariant
                j <= bytes@.len(),
                out@ == before + bytes@.take(j as int),
            decreases bytes@.len() - j,
        {
            out.push(bytes[j]);
            j = j + 1;
            assert(out@ =~= before + bytes@.take(j as int));
        }
        out.push(0u8);
        proof {
            assert(bytes@.take(j as int) =~= bytes@);
            assert(pv.take(i + 1).drop_last() =~= pv.take(i as int));
            assert(pv.take(i + 1).last() == paths@[i as int]@);
            assert(out@ =~= before + vstd::utf8::encode_utf8(paths@[i as int]@) + seq![0u8]);
        }
        i = i + 1;
    }
    assert(pv.take(i as int) =~= pv);
    out
}

// ---- content diffs ----

/// A content diff to compute: the destination side comes from the fetched
/// snapshot or is empty, the source side is the repository file or empty.
#[derive(Debug)]
pub struct DiffJob {
    pub path: String,
    pub destination_from_snapshot: bool,
    pub source_from_repo: bool,
}

pub struct DiffJobView {
    pub path: Seq<char>,
    pub destination_from_snapshot: bool,
    pub source_from_repo: bool,
}

impl View for DiffJob {
    type V = DiffJobView;

    open spec fn view(&self) -> DiffJobView {
        DiffJobView {
            path: self.path@,
            destination_from_snapshot: self.destination_from_snapshot,
            source_from_repo: self.source_from_repo,
        }
    }
}

/// The content diffs that a dry run's output calls for, in selection order:
/// one per selected file that rsync reports and that needs a diff; the
/// destination side is empty for a new item or when no snapshot was fetched,
/// the source side is empty for a deleted file.
pub open spec fn diff_jobs(selected: Seq<CandidateView>, stdout: Seq<char>, snapshot: bool) -> Seq<
    DiffJobView,
>
    decreases selected.len(),
{
    if selected.len() == 0 {
        Seq::empty()
    } else {
        let c = selected.last();
        let ml = matching_lines(stdout, c.path);
        let rest = diff_jobs(selected.drop_last(), stdout, snapshot);
        if ml.len() == 0 || !needs_content_diff(c.kind, ml) {
            rest
        } else {
            rest.push(
                DiffJobView {
                    path: c.path,
                    destination_from_snapshot: !change_is_new(ml) && snapshot,
                    source_from_repo: c.kind != ChangeKind::Deleted,
                },
            )
        }
    }
}

/// The content diffs to compute after a dry run.
pub fn content_diff_jobs(selected: &Vec<Candidate>, stdout: &str, snapshot: bool) -> (r: Vec<DiffJob>)
    requires
        selected@.len() > 0 ==> itemized_output_ok(stdout@),
    ensures
        r@.map_values(|j: DiffJob| j@) == diff_jobs(candidate_views(selected@), stdout@, snapshot),
{
    let ghost sv = candidate_views(selected@);
    let mut out: Vec<DiffJob> = Vec::new();
    let mut i: usize = 0;
    assert(sv.take(0) =~= Seq::<CandidateView>::empty());
    assert(out@.map_values(|j: DiffJob| j@) =~= Seq::<DiffJobView>::empty());
    while i < selected.len()
        invariant
            i <= selected@.len(),
            sv == candidate_views(selected@),
            selected@.len() > 0 ==> itemized_output_ok(stdout@),
            out@.map_values(|j: DiffJob| j@) == diff_jobs(sv.take(i as int), stdout@, snapshot),
        decreases selected@.len() - i,
    {
        let c = &selected[i];
        let ls = matching_itemized_lines(stdout, c.path.as_str());
        let ghost before = out@.map_values(|j: DiffJob| j@);
        assert(sv.take(i + 1).drop_last() =~= sv.take(i as int));
        assert(sv.take(i + 1).last() == c@);
        if ls.len() > 0 && itemized_change_needs_content_diff(c, &ls) {
            let job = DiffJob {
                path: c.path.clone(),
                destination_from_snapshot: !itemized_change_is_new(&ls) && snapshot,
                source_from_repo: c.kind != ChangeKind::Deleted,
            };
            let ghost jv = job@;
            out.push(job);
            assert(out@.map_values(|j: DiffJob| j@) =~= before.push(jv));
        }
        i = i + 1;
    }
    assert(sv.take(i as int) =~= sv);
    out
}

/// The pane text when no diff can be run: the fetched destination file or
/// the source file is missing, or one side is a folder.
pub fn diff_unavailable_text(destination_missing: bool, source_missing: bool, directory: bool) -> (r: Option<&'static str>)
    ensures
        destination_missing ==> r == Some(
            "(destination file could not be fetched; content diff is unavailable)\n",
        ),
        !destination_missing && source_missing ==> r == Some(
            "(source file is not available; content diff is unavailable)\n",
        ),
        !destination_missing && !source_missing && directory ==> r == Some(
            "(content diff is not available for directories)\n",
        ),
        !destination_missing && !source_missing && !directory ==> r is None,
{
    if destination_missing {
        Some("(destination file could not be fetched; content diff is unavailable)\n")
    } else if source_missing {
        Some("(source file is not available; content diff is unavailable)\n")
    } else if directory {
        Some("(content diff is not available for directories)\n")
    } else {
        None
    }
}

/// The pane text from what `diff -u destination source` returned.
pub open spec fn diff_output_spec(
    path: Seq<char>,
    success: bool,
    exit_code_one: bool,
    stdout: Seq<char>,
    stderr: Seq<char>,
) -> Seq<char> {
    if success {
        "(no textual content diff)\n"@
    } else if exit_code_one {
        if trim(stdout).len() == 0 {
            trim(stderr) + "\n"@
        } else {
            relabeled(stdout, "destination/"@ + path, "source/"@ + path)
        }
    } else {
        "diff failed:\n"@ + stderr
    }
}

/// The destination-diff text for `path` from what `diff -u` returned:
/// success means no difference, exit code 1 carries the diff, anything else
/// is a failure.
pub fn diff_output_text(path: &str, success: bool, exit_code_one: bool, stdout: &str, stderr: &str) -> (r: String)
    ensures
        r@ == diff_output_spec(path@, success, exit_code_one, stdout@, stderr@),
{
    if success {
        return String::from_str("(no textual content diff)\n");
    }
    if exit_code_one {
        if trim_chars(&chars_of(stdout)).len() == 0 {
            let mut r = crate::text::trimmed(stderr);
            r.append("\n");
            return r;
        }
        let mut old_label = String::from_str("destination/");
        old_label.append(path);
        let mut new_label = String::from_str("source/");
        new_label.append(path);
        return relabel_unified_diff(stdout, old_label.as_str(), new_label.as_str());
    }
    let mut r = String::from_str("diff failed:\n");
    r.append(stderr);
    r
}

// ---- laws of decoding and planning ----

proof fn lemma_ascii_prefix_count(e: Seq<char>, n: nat, m: nat)
    requires
        m <= n,
        m <= e.len(),
        forall|i: int| 0 <= i < m ==> char_width(#[trigger] e[i]) == 1,
    ensures
        char_count_at_byte(e, n) matches Some(k) ==> k >= m,
    decreases m,
{
    if m > 0 {
        assert(char_width(e[0]) == 1);
        let rest = e.drop_first();
        assert forall|i: int| 0 <= i < m - 1 implies char_width(#[trigger] rest[i]) == 1 by {
            assert(rest[i] == e[i + 1]);
        }
        lemma_ascii_prefix_count(rest, (n - 1) as nat, (m - 1) as nat);
    }
}

/// A line that reports a deletion (`*deleting`) is described as exactly
/// that, and as nothing else.
pub proof fn lemma_deleting_line_decodes(line: Seq<char>)
    requires
        starts_with(line, "*deleting"@),
    ensures
        decode_spec(line) == seq!["destination item would be deleted"@],
{
    reveal_strlit("*deleting");
    let p = "*deleting"@;
    assert(line.take(9) =~= p);
    assert forall|i: int| 0 <= i < 9 implies char_width(#[trigger] line[i]) == 1 by {
        assert(line[i] == p[i]);
        assert((p[i] as u32) < 0x80);
    }
    lemma_ascii_prefix_count(line, 11, 9);
    let c = change_code(line);
    match char_count_at_byte(line, 11) {
        Some(k) => {
            lemma_count_le_len(line, 11, k);
            assert(c == line.take(k as int));
            assert(c.take(9) =~= line.take(9));
        },
        None => {
            assert(c == line);
        },
    }
    assert(starts_with(c, p));
}

/// A run previews (`--dry-run`) exactly on a dry run, and deletes what is
/// missing at the source (`--delete-missing-args`) exactly when a deleted
/// file is among those sent; every run compares by checksum, itemizes its
/// changes, keeps attributes, and reads a NUL-separated file list.
pub proof fn lemma_rsync_args_modes(has_deleted: bool, dry_run: bool)
    ensures
        rsync_args_spec(has_deleted, dry_run).contains("--dry-run"@) == dry_run,
        rsync_args_spec(has_deleted, dry_run).contains("--delete-missing-args"@) == has_deleted,
        rsync_args_spec(has_deleted, dry_run).contains("--checksum"@),
        rsync_args_spec(has_deleted, dry_run).contains("-i"@),
        rsync_args_spec(has_deleted, dry_run).contains("-a"@),
        rsync_args_spec(has_deleted, dry_run).contains("--from0"@),
{
    reveal_strlit("-a");
    reveal_strlit("-i");
    reveal_strlit("--checksum");
    reveal_strlit("--out-format=%i %n%L");
    reveal_strlit("--from0");
    reveal_strlit("--delete-missing-args");
    reveal_strlit("--dry-run");
    let a = rsync_args_spec(has_deleted, dry_run);
    let base = seq!["-a"@, "-i"@, "--checksum"@, "--out-format=%i %n%L"@, "--from0"@];
    let n = if has_deleted { 6int } else { 5int };
    assert(a[0] == "-a"@);
    assert(a[1] == "-i"@);
    assert(a[2] == "--checksum"@);
    assert(a[4] == "--from0"@);
    if has_deleted {
        assert(a[5] == "--delete-missing-args"@);
    }
    if dry_run {
        assert(a[n] == "--dry-run"@);
    }
    assert(a.len() == n + if dry_run { 1int } else { 0 });
    assert forall|i: int| 0 <= i < a.len() implies (#[trigger] a[i] == "--dry-run"@ ==> dry_run
        && i == n) && (a[i] == "--delete-missing-args"@ ==> has_deleted && i == 5) by {
        if i < 5 {
            assert(a[i] == base[i]);
            assert(base[i].len() != "--dry-run"@.len() || base[i][2] != "--dry-run"@[2]);
            assert(base[i].len() != "--delete-missing-args"@.len());
        }
    }
}

/// A planned run gets `--dry-run` exactly when a dry run was asked for, and
/// `--delete-missing-args` exactly when a deleted file is selected.
pub proof fn lemma_planned_run_modes(sel: Seq<CandidateView>, dry_run: bool, args: Seq<Seq<char>>)
    requires
        args == rsync_args_spec(any_deleted(sel), dry_run),
    ensures
        args.contains("--dry-run"@) == dry_run,
        args.contains("--delete-missing-args"@) == (exists|i: int|
            0 <= i < sel.len() && #[trigger] sel[i].kind == ChangeKind::Deleted),
{
    lemma_rsync_args_modes(any_deleted(sel), dry_run);
}

} // verus!

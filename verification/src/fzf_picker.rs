//! Arguments for `fzf` (or `sk`) and how its output is read.
use vstd::prelude::*;
use crate::text::{
    chars_of, trim, trimmed, eq_ignore_case, str_eq_ignore_case, str_eq, index_of, find_char,
    strip_suffix, strip_suffix_str, strip_prefix_str, owned, string_of, views, opt_view,
};
use crate::keybinds::either_prefix;

verus! {

/// Key name fzf prints when using `--expect=ctrl-r` and the user accepts with that key.
pub const FZF_EXPECT_REPLACE_QUEUE: &'static str = "ctrl-r";


/// Split fzf stdout when `--expect` is set: first line is the key (empty string for default
/// Enter) or, without `--expect`, the first selected row.
pub open spec fn split_expect(lines: Seq<Seq<char>>) -> (bool, Seq<Seq<char>>) {
    if lines.len() == 0 {
        (false, Seq::empty())
    } else if lines[0] == "ctrl-r"@ {
        (true, lines.skip(1))
    } else if lines[0].len() == 0 {
        (false, lines.skip(1))
    } else {
        (false, lines)
    }
}

fn copy_from(lines: &[String], start: usize) -> (r: Vec<String>)
    requires start <= lines.len(),
    ensures views(r@) == views(lines@).skip(start as int),
{
    let mut r: Vec<String> = Vec::new();
    let mut i = start;
    while i < lines.len()
        invariant
            start <= i <= lines.len(),
            r@.len() == i - start,
            forall|k: int| 0 <= k < r@.len() ==> (#[trigger] r@[k])@ == lines@[k + start]@,
        decreases lines.len() - i,
    {
        r.push(lines[i].clone());
        i += 1;
    }
    assert(views(r@) =~= views(lines@).skip(start as int));
    r
}

/// Split fzf stdout when `--expect` is set: first line is the key (empty string for default
/// Enter) or, without `--expect`, the first selected row.
pub fn parse_fzf_output_lines(lines: &[String]) -> (r: (bool, Vec<String>))
    ensures
        r.0 == split_expect(views(lines@)).0,
        views(r.1@) == split_expect(views(lines@)).1,
{
    if lines.len() == 0 {
        let v: Vec<String> = Vec::new();
        assert(views(v@) =~= Seq::<Seq<char>>::empty());
        return (false, v);
    }
    let first = lines[0].as_str();
    assert(views(lines@)[0] == first@);
    if str_eq(first, FZF_EXPECT_REPLACE_QUEUE) {
        return (true, copy_from(lines, 1));
    }
    if first.is_empty() {
        return (false, copy_from(lines, 1));
    }
    let all = copy_from(lines, 0);
    assert(views(lines@).skip(0) =~= views(lines@));
    (false, all)
}

/// True when a file name names skim: `sk`, or `sk.exe`.
pub open spec fn names_sk(name: Seq<char>) -> bool {
    match strip_suffix(name, ".exe"@) {
        Some(stem) => stem == "sk"@,
        None => name == "sk"@,
    }
}

/// True when the file name `name` names skim (`sk`, also `sk.exe` on Windows).
pub fn file_name_is_sk(name: &str) -> (r: bool)
    ensures r == names_sk(name@),
{
    match strip_suffix_str(name, ".exe") {
        Some(stem) => str_eq(stem, "sk"),
        None => str_eq(name, "sk"),
    }
}


/// A path component that every platform reads the same way as a plain file name:
/// not empty, not `.` or `..`, and without `/`, `\` or `:`.
pub open spec fn plain_name(n: Seq<char>) -> bool {
    &&& n.len() > 0
    &&& n != "."@
    &&& n != ".."@
    &&& forall|i: int| 0 <= i < n.len() ==> #[trigger] n[i] != '/' && n[i] != '\\' && n[i] != ':'
}

/// The last position of `c` in `s`.
pub open spec fn last_index_of(s: Seq<char>, c: char) -> Option<int>
    decreases s.len(),
{
    if s.len() == 0 {
        None
    } else if s.last() == c {
        Some(s.len() - 1)
    } else {
        last_index_of(s.drop_last(), c)
    }
}

/// The file name of `path` where every platform's path rules agree on it: the whole
/// path when it is a plain name, or the plain name after the last `/` when the part
/// before it holds no `\` and does not start with `//` (which Windows reads as a network
/// share). `None` where the platforms may differ or the path has no file name.
pub open spec fn known_file_name(path: Seq<char>) -> Option<Seq<char>> {
    match last_index_of(path, '/') {
        None => if plain_name(path) { Some(path) } else { None },
        Some(i) => {
            let d = path.take(i);
            let n = path.skip(i + 1);
            if plain_name(n) && (forall|k: int| 0 <= k < d.len() ==> #[trigger] d[k] != '\\')
                && !(d.len() >= 2 && d[0] == '/' && d[1] == '/') {
                Some(n)
            } else {
                None
            }
        },
    }
}

/// The final component of `path` (`std::path::Path::file_name`), when it has one and it
/// is valid UTF-8. Stated only where every platform agrees (`known_file_name`): a plain
/// name is its own file name, and so is a plain name after a last `/`. Elsewhere what
/// counts as a component depends on the platform's path rules, and nothing is stated.
#[verifier::external_body]
fn path_file_name(path: &str) -> (r: Option<String>)
    ensures
        known_file_name(path@) matches Some(n) ==> opt_view(r) == Some(n),
{
    std::path::Path::new(path).file_name().and_then(|s| s.to_str()).map(|s| s.to_string())
}

/// True if `binary`'s file stem is `sk` (skim). Handles `sk.exe` on Windows.
pub fn fuzzy_picker_basename_is_sk(binary: &str) -> (r: bool)
    ensures
        known_file_name(binary@) matches Some(n) ==> r == names_sk(n),
{
    match path_file_name(binary) {
        Some(name) => file_name_is_sk(name.as_str()),
        None => file_name_is_sk(binary),
    }
}

/// True when one `--bind` fragment assigns an action to `ctrl-r`.
pub open spec fn fragment_binds_ctrl_r(f: Seq<char>) -> bool {
    let t = trim(f);
    match index_of(t, ':') {
        Some(i) => eq_ignore_case(t.take(i), "ctrl-r"@),
        None => false,
    }
}

/// True when a comma-separated `--bind` list assigns an action to `ctrl-r`.
pub open spec fn bind_list_binds_ctrl_r(s: Seq<char>) -> bool
    decreases s.len(),
{
    match index_of(s, ',') {
        Some(i) => if 0 <= i < s.len() {
            fragment_binds_ctrl_r(s.take(i)) || bind_list_binds_ctrl_r(s.skip(i + 1))
        } else {
            false
        },
        None => fragment_binds_ctrl_r(s),
    }
}

fn fragment_sets_ctrl_r(frag: &str) -> (r: bool)
    ensures r == fragment_binds_ctrl_r(frag@),
{
    let t = trimmed(frag);
    let v = chars_of(t);
    match find_char(v.as_slice(), ':') {
        Some(i) => str_eq_ignore_case(t.substring_char(0, i), "ctrl-r"),
        None => false,
    }
}

/// True when the `--bind` list assigns an action to `ctrl-r`.
pub fn bind_string_sets_ctrl_r(bind_list: &str) -> (r: bool)
    ensures r == bind_list_binds_ctrl_r(bind_list@),
    decreases bind_list@.len(),
{
    let v = chars_of(bind_list);
    proof { crate::text::lemma_index_of_bounds(v@, ','); }
    match find_char(v.as_slice(), ',') {
        Some(i) => {
            if fragment_sets_ctrl_r(bind_list.substring_char(0, i)) {
                assert(bind_list@.subrange(0, i as int) =~= bind_list@.take(i as int));
                return true;
            }
            assert(bind_list@.subrange(0, i as int) =~= bind_list@.take(i as int));
            let rest = bind_list.substring_char(i + 1, v.len());
            assert(rest@ =~= bind_list@.skip(i + 1));
            bind_string_sets_ctrl_r(rest)
        },
        None => fragment_sets_ctrl_r(bind_list),
    }
}

/// True when `args`, read from position `i`, assign an action to `ctrl-r` via `--bind` /
/// `-b` (as `--bind=…`, `-b=…`, or the list in the next argument).
pub open spec fn args_bind_ctrl_r_from(args: Seq<Seq<char>>, i: int) -> bool
    decreases args.len() - i,
{
    if i < 0 || i >= args.len() {
        false
    } else {
        let a = args[i];
        match either_prefix(a, "--bind="@, "-b="@) {
            Some(rest) => bind_list_binds_ctrl_r(rest) || args_bind_ctrl_r_from(args, i + 1),
            None => if (a == "--bind"@ || a == "-b"@) && i + 1 < args.len() {
                bind_list_binds_ctrl_r(args[i + 1]) || args_bind_ctrl_r_from(args, i + 2)
            } else {
                args_bind_ctrl_r_from(args, i + 1)
            },
        }
    }
}

/// True if argv already assigns an action to `ctrl-r` via `--bind` / `-b`.
pub fn args_specify_ctrl_r_bind(args: &[String]) -> (r: bool)
    ensures r == args_bind_ctrl_r_from(views(args@), 0),
{
    let ghost a = views(args@);
    let mut i: usize = 0;
    while i < args.len()
        invariant
            a == views(args@),
            i <= args.len() + 1,
            args_bind_ctrl_r_from(a, 0) == args_bind_ctrl_r_from(a, i as int),
        decreases args.len() + 1 - i,
    {
        let arg = args[i].as_str();
        assert(a[i as int] == arg@);
        let prefixed = match strip_prefix_str(arg, "--bind=") {
            Some(x) => Some(x),
            None => strip_prefix_str(arg, "-b="),
        };
        match prefixed {
            Some(rest) => {
                if bind_string_sets_ctrl_r(rest) {
                    return true;
                }
            },
            None => {
                if (str_eq(arg, "--bind") || str_eq(arg, "-b")) && i + 1 < args.len() {
                    assert(a[i + 1] == args@[i + 1]@);
                    if bind_string_sets_ctrl_r(args[i + 1].as_str()) {
                        return true;
                    }
                    i += 1;
                }
            },
        }
        i += 1;
    }
    false
}

pub open spec fn ctrl_r_accept_bind() -> Seq<char> {
    "--bind=ctrl-r:accept(ctrl-r)"@
}

/// The picker arguments for a picker that is (or is not) skim: skim gets
/// `--bind=ctrl-r:accept(ctrl-r)` appended unless the arguments bind `ctrl-r` already.
pub open spec fn picker_args(is_sk: bool, args: Seq<Seq<char>>) -> Seq<Seq<char>> {
    if !is_sk || args_bind_ctrl_r_from(args, 0) { args } else { args.push(ctrl_r_accept_bind()) }
}

/// `picker_args` for a picker already known to be (or not to be) skim.
pub fn picker_args_for(is_sk: bool, args: Vec<String>) -> (r: Vec<String>)
    ensures views(r@) == picker_args(is_sk, views(args@)),
{
    if !is_sk || args_specify_ctrl_r_bind(args.as_slice()) {
        return args;
    }
    let mut args = args;
    let ghost before = args@;
    args.push(String::from_str("--bind=ctrl-r:accept(ctrl-r)"));
    assert(views(args@) =~= views(before).push(ctrl_r_accept_bind()));
    args
}

/// Skim maps Ctrl+R to rotate fuzzy/regex mode by default, so `--expect=ctrl-r` never fires.
/// Append `--bind=ctrl-r:accept(ctrl-r)` so replace-queue matches fzf unless the user bound ctrl-r.
pub fn prepare_library_fuzzy_picker_args(binary: &str, args: Vec<String>) -> (r: Vec<String>)
    ensures
        known_file_name(binary@) matches Some(n) ==> views(r@) == picker_args(names_sk(n), views(args@)),
        views(r@) == views(args@) || views(r@) == views(args@).push(ctrl_r_accept_bind()),
        views(r@) != views(args@) ==> !args_bind_ctrl_r_from(views(args@), 0),
{
    let is_sk = fuzzy_picker_basename_is_sk(binary);
    picker_args_for(is_sk, args)
}


proof fn lemma_accept_bind_binds_ctrl_r()
    ensures
        either_prefix(ctrl_r_accept_bind(), "--bind="@, "-b="@) == Some("ctrl-r:accept(ctrl-r)"@),
        bind_list_binds_ctrl_r("ctrl-r:accept(ctrl-r)"@),
{
    let s = "ctrl-r:accept(ctrl-r)"@;
    reveal_strlit("ctrl-r:accept(ctrl-r)");
    reveal_strlit("ctrl-r");
    reveal_strlit("--bind=ctrl-r:accept(ctrl-r)");
    reveal_strlit("--bind=");
    let b = ctrl_r_accept_bind();
    assert(b.take(7) =~= "--bind="@);
    assert(b.skip(7) =~= s);
    crate::text::lemma_index_of_bounds(s, ',');
    crate::text::lemma_index_of_bounds(s, ':');
    assert(s[6] == ':');
    assert(crate::text::trim_start(s) == s);
    assert(crate::text::trim_end(s) == s);
    assert(s.take(6) =~= "ctrl-r"@);
}

proof fn lemma_scan_reaches_last(a: Seq<Seq<char>>, i: int)
    requires
        0 <= i <= a.len(),
        a.len() > 0 ==> a.last() != "--bind"@ && a.last() != "-b"@,
    ensures
        args_bind_ctrl_r_from(a.push(ctrl_r_accept_bind()), i),
    decreases a.len() - i,
{
    let s = a.push(ctrl_r_accept_bind());
    lemma_accept_bind_binds_ctrl_r();
    if i < a.len() {
        assert(s[i] == a[i]);
        lemma_scan_reaches_last(a, i + 1);
        if i + 1 < a.len() {
            lemma_scan_reaches_last(a, i + 2);
        }
    } else {
        assert(s[i] == ctrl_r_accept_bind());
    }
}

/// Preparing the picker arguments twice gives what preparing them once gives: the
/// appended `--bind=ctrl-r:accept(ctrl-r)` is itself a `ctrl-r` binding. (This needs the
/// arguments not to end in a bare `--bind` / `-b`, which would take the appended
/// argument as its value.)
pub proof fn picker_args_idempotent(is_sk: bool, args: Seq<Seq<char>>)
    requires
        args.len() > 0 ==> args.last() != "--bind"@ && args.last() != "-b"@,
    ensures
        picker_args(is_sk, picker_args(is_sk, args)) == picker_args(is_sk, args),
{
    if is_sk && !args_bind_ctrl_r_from(args, 0) {
        lemma_scan_reaches_last(args, 0);
    }
}

/// `line` without its trailing carriage returns.
pub open spec fn trim_end_cr(line: Seq<char>) -> Seq<char>
    decreases line.len(),
{
    if line.len() > 0 && line.last() == '\r' { trim_end_cr(line.drop_last()) } else { line }
}

/// The row a line gives: trailing carriage returns removed; nothing when that leaves it empty.
pub open spec fn kept_row(line: Seq<char>) -> Seq<Seq<char>> {
    if trim_end_cr(line).len() > 0 { seq![trim_end_cr(line)] } else { Seq::empty() }
}

/// The non-empty rows of picker output, where `cur` is the part of the current line read so far.
pub open spec fn rows_from(s: Seq<char>, cur: Seq<char>) -> Seq<Seq<char>>
    decreases s.len(),
{
    if s.len() == 0 {
        kept_row(cur)
    } else if s[0] == '\n' {
        kept_row(cur) + rows_from(s.drop_first(), Seq::empty())
    } else {
        rows_from(s.drop_first(), cur.push(s[0]))
    }
}

/// The picker's stdout as rows: split into lines, trailing `\r`s removed, empty lines dropped.
pub open spec fn output_rows(out: Seq<char>) -> Seq<Seq<char>> {
    rows_from(out, Seq::empty())
}

/// `line` as a `String` without its trailing carriage returns.
fn row_of(line: &Vec<char>) -> (r: String)
    ensures r@ == trim_end_cr(line@),
{
    let mut e: usize = line.len();
    assert(line@.take(e as int) =~= line@);
    while e > 0 && line[e - 1] == '\r'
        invariant
            e <= line.len(),
            trim_end_cr(line@.take(e as int)) == trim_end_cr(line@),
        decreases e,
    {
        assert(line@.take(e as int).drop_last() =~= line@.take(e - 1));
        e -= 1;
    }
    let mut r = String::new();
    let mut i: usize = 0;
    while i < e
        invariant
            e <= line.len(),
            i <= e,
            r@ == line@.take(i as int),
        decreases e - i,
    {
        crate::text::push_char(&mut r, line[i]);
        assert(line@.take(i + 1) =~= line@.take(i as int).push(line@[i as int]));
        i += 1;
    }
    r
}

/// The rows the user picked from the picker's stdout (after a successful exit), or `None`
/// when there are none.
pub fn selected_rows(out: &str) -> (r: Option<Vec<String>>)
    ensures
        r is None <==> output_rows(out@).len() == 0,
        r matches Some(v) ==> views(v@) == output_rows(out@),
{
    let s = chars_of(out);
    let mut rows: Vec<String> = Vec::new();
    let mut cur: Vec<char> = Vec::new();
    let mut i: usize = 0;
    assert(s@.skip(0) =~= s@);
    assert(views(rows@) + rows_from(s@.skip(0), cur@) =~= rows_from(s@, Seq::empty()));
    while i < s.len()
        invariant
            i <= s.len(),
            s@ == out@,
            views(rows@) + rows_from(s@.skip(i as int), cur@) == rows_from(s@, Seq::empty()),
        decreases s.len() - i,
    {
        assert(s@.skip(i as int).drop_first() =~= s@.skip(i + 1));
        assert(s@.skip(i as int)[0] == s@[i as int]);
        let ghost before = views(rows@);
        if s[i] == '\n' {
            let row = row_of(&cur);
            if row.as_str().unicode_len() > 0 {
                rows.push(row);
                assert(views(rows@) =~= before + seq![row@]);
            } else {
                assert(kept_row(cur@) =~= Seq::<Seq<char>>::empty());
            }
            assert(views(rows@) =~= before + kept_row(cur@));
            cur = Vec::new();
            assert(cur@ =~= Seq::<char>::empty());
        } else {
            cur.push(s[i]);
        }
        i += 1;
    }
    assert(s@.skip(s.len() as int) =~= Seq::<char>::empty());
    let ghost before = views(rows@);
    let row = row_of(&cur);
    if row.as_str().unicode_len() > 0 {
        rows.push(row);
        assert(views(rows@) =~= before + seq![row@]);
    } else {
        assert(kept_row(cur@) =~= Seq::<Seq<char>>::empty());
        assert(views(rows@) =~= before + kept_row(cur@));
    }
    assert(s@.skip(0) =~= s@);
    if rows.len() == 0 {
        None
    } else {
        Some(rows)
    }
}
} // verus!

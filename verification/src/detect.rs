//! Distribution detection: reading the identifier out of the release file's
//! contents, with fixed marker-file fallbacks when that yields nothing.

use vstd::prelude::*;
use vstd::string::StrSliceExecFns;

verus! {

/// The three characters `ID=` that begin the identifier line of a release
/// file.
pub open spec fn id_prefix() -> Seq<char> {
    seq!['I', 'D', '=']
}

/// A line carries the identifier when it begins with `ID=`.
pub open spec fn is_id_line(line: Seq<char>) -> bool {
    line.len() >= 3 && line.subrange(0, 3) == id_prefix()
}

/// `s` with every leading and trailing double-quote character removed.
pub open spec fn trim_quotes(s: Seq<char>) -> Seq<char>
    decreases s.len(),
{
    if s.len() > 0 && s[0] == '"' {
        trim_quotes(s.drop_first())
    } else if s.len() > 0 && s.last() == '"' {
        trim_quotes(s.drop_last())
    } else {
        s
    }
}

/// Position of the first newline in `s`, or `s.len()` when there is none.
pub open spec fn first_newline(s: Seq<char>) -> nat
    decreases s.len(),
{
    if s.len() == 0 {
        0
    } else if s[0] == '\n' {
        0
    } else {
        1 + first_newline(s.drop_first())
    }
}

/// A carriage return at the end of a newline-terminated line is dropped, so
/// `\r\n` endings read like plain `\n`.
pub open spec fn strip_cr(line: Seq<char>) -> Seq<char> {
    if line.len() > 0 && line.last() == '\r' {
        line.drop_last()
    } else {
        line
    }
}

/// The lines of `s`: the pieces between newlines, a carriage return before
/// each newline dropped. Text after the last newline forms a final line kept
/// verbatim; an empty tail adds no line.
pub open spec fn split_lines(s: Seq<char>) -> Seq<Seq<char>>
    decreases s.len(),
{
    if s.len() == 0 {
        Seq::empty()
    } else {
        let i = first_newline(s) as int;
        if i >= s.len() {
            seq![s]
        } else {
            seq![strip_cr(s.subrange(0, i))] + split_lines(s.subrange(i + 1, s.len() as int))
        }
    }
}

/// The identifier carried by the first `ID=` line of `lines`: the text after
/// the prefix, surrounding double quotes removed. Nothing when no line begins
/// with `ID=`.
pub open spec fn first_id_value(lines: Seq<Seq<char>>) -> Option<Seq<char>>
    decreases lines.len(),
{
    if lines.len() == 0 {
        None
    } else if is_id_line(lines[0]) {
        Some(trim_quotes(lines[0].skip(3)))
    } else {
        first_id_value(lines.drop_first())
    }
}

/// What detection reads out of the release file's contents.
pub open spec fn spec_os_release_id(contents: Seq<char>) -> Option<Seq<char>> {
    first_id_value(split_lines(contents))
}

/// The full detection verdict from what the host shows: the release file's
/// contents where it could be read, and whether each fallback marker path
/// exists. The release file wins when it yields an identifier; otherwise the
/// markers are consulted in the fixed order Debian, Red Hat, Arch.
pub open spec fn spec_detect(
    contents: Option<Seq<char>>,
    has_debian_marker: bool,
    has_redhat_marker: bool,
    has_arch_marker: bool,
) -> Option<Seq<char>> {
    let from_file = match contents {
        Some(c) => spec_os_release_id(c),
        None => None,
    };
    match from_file {
        Some(id) => Some(id),
        None => {
            if has_debian_marker {
                Some("debian"@)
            } else if has_redhat_marker {
                Some("rhel"@)
            } else if has_arch_marker {
                Some("arch"@)
            } else {
                None
            }
        },
    }
}

proof fn lemma_first_id_value_at(lines: Seq<Seq<char>>, i: int)
    requires
        0 <= i < lines.len(),
        forall|j: int| 0 <= j < i ==> !is_id_line(#[trigger] lines[j]),
        is_id_line(lines[i]),
    ensures
        first_id_value(lines) == Some(trim_quotes(lines[i].skip(3))),
    decreases i,
{
    if i == 0 {
    } else {
        assert(!is_id_line(lines[0]));
        assert forall|j: int| 0 <= j < i - 1 implies !is_id_line(#[trigger] lines.drop_first()[j]) by {
            assert(lines.drop_first()[j] == lines[j + 1]);
        }
        assert(lines.drop_first()[i - 1] == lines[i]);
        lemma_first_id_value_at(lines.drop_first(), i - 1);
    }
}

proof fn lemma_trim_quotes_clean(v: Seq<char>)
    requires
        v.len() > 0 ==> (v[0] != '"' && v.last() != '"'),
    ensures
        trim_quotes(v) == v,
{
}

proof fn lemma_trim_quotes_wrapped(v: Seq<char>)
    requires
        v.len() > 0 ==> (v[0] != '"' && v.last() != '"'),
    ensures
        trim_quotes(seq!['"'] + v + seq!['"']) == v,
{
    let q = seq!['"'] + v + seq!['"'];
    let w = v + seq!['"'];
    assert(q[0] == '"');
    assert(q.drop_first() =~= w);
    assert(trim_quotes(q) == trim_quotes(w));
    if v.len() == 0 {
        assert(w[0] == '"');
        assert(w.drop_first() =~= Seq::<char>::empty());
        assert(trim_quotes(w) == trim_quotes(Seq::<char>::empty()));
        assert(trim_quotes(Seq::<char>::empty()) == Seq::<char>::empty());
        assert(v =~= Seq::<char>::empty());
    } else {
        assert(w[0] == v[0]);
        assert(w[0] != '"');
        assert(w.last() == '"');
        assert(w.drop_last() =~= v);
        assert(trim_quotes(w) == trim_quotes(v));
        lemma_trim_quotes_clean(v);
    }
}

/// Detection reads the identifier off the first `ID=` line. For any
/// release-file contents whose first `ID=` line carries the value `v` — bare,
/// or wrapped in one pair of double quotes — detection returns exactly `v`,
/// whatever marker files exist beside it.
pub proof fn lemma_detection_reads_id_line(
    contents: Seq<char>,
    i: int,
    v: Seq<char>,
    has_debian_marker: bool,
    has_redhat_marker: bool,
    has_arch_marker: bool,
)
    requires
        0 <= i < split_lines(contents).len(),
        forall|j: int| 0 <= j < i ==> !is_id_line(#[trigger] split_lines(contents)[j]),
        v.len() > 0 ==> (v[0] != '"' && v.last() != '"'),
        split_lines(contents)[i] == id_prefix() + v || split_lines(contents)[i] == id_prefix()
            + seq!['"'] + v + seq!['"'],
    ensures
        spec_os_release_id(contents) == Some(v),
        spec_detect(
            Some(contents),
            has_debian_marker,
            has_redhat_marker,
            has_arch_marker,
        ) == Some(v),
{
    let line = split_lines(contents)[i];
    if line == id_prefix() + v {
        assert(line.subrange(0, 3) =~= id_prefix());
        assert(line.skip(3) =~= v);
        lemma_trim_quotes_clean(v);
    } else {
        assert(line.subrange(0, 3) =~= id_prefix());
        assert(line.skip(3) =~= seq!['"'] + v + seq!['"']);
        lemma_trim_quotes_wrapped(v);
    }
    lemma_first_id_value_at(split_lines(contents), i);
}

/// The fallback order is fixed. When the release file is absent or yields no
/// identifier, an existing Debian marker wins over the Red Hat and the Arch
/// markers, the Red Hat marker over the Arch one; and with no marker at all,
/// detection reports absence.
pub proof fn lemma_detection_fallback_order(
    contents: Option<Seq<char>>,
    has_debian_marker: bool,
    has_redhat_marker: bool,
    has_arch_marker: bool,
)
    requires
        contents matches Some(c) ==> spec_os_release_id(c) is None,
    ensures
        has_debian_marker ==> spec_detect(
            contents,
            has_debian_marker,
            has_redhat_marker,
            has_arch_marker,
        ) == Some("debian"@),
        !has_debian_marker && has_redhat_marker ==> spec_detect(
            contents,
            has_debian_marker,
            has_redhat_marker,
            has_arch_marker,
        ) == Some("rhel"@),
        !has_debian_marker && !has_redhat_marker && has_arch_marker ==> spec_detect(
            contents,
            has_debian_marker,
            has_redhat_marker,
            has_arch_marker,
        ) == Some("arch"@),
        !has_debian_marker && !has_redhat_marker && !has_arch_marker ==> spec_detect(
            contents,
            has_debian_marker,
            has_redhat_marker,
            has_arch_marker,
        ) is None,
{
}

proof fn lemma_first_newline_at(s: Seq<char>, i: int)
    requires
        0 <= i <= s.len(),
        forall|k: int| 0 <= k < i ==> s[k] != '\n',
        i == s.len() || s[i] == '\n',
    ensures
        first_newline(s) == i,
    decreases i,
{
    if i == 0 {
    } else {
        assert(s[0] != '\n');
        assert forall|k: int| 0 <= k < i - 1 implies s.drop_first()[k] != '\n' by {
            assert(s.drop_first()[k] == s[k + 1]);
        }
        if i < s.len() {
            assert(s.drop_first()[i - 1] == s[i]);
        }
        lemma_first_newline_at(s.drop_first(), i - 1);
    }
}

/// Position of the first newline in `s`.
fn find_newline(s: &str) -> (i: usize)
    ensures
        i == first_newline(s@),
        i <= s@.len(),
{
    let n = s.unicode_len();
    let mut i: usize = 0;
    while i < n
        invariant
            i <= n,
            n == s@.len(),
            forall|k: int| 0 <= k < i ==> s@[k] != '\n',
        decreases n - i,
    {
        if s.get_char(i) == '\n' {
            proof {
                lemma_first_newline_at(s@, i as int);
            }
            return i;
        }
        i += 1;
    }
    proof {
        lemma_first_newline_at(s@, i as int);
    }
    i
}

/// The value of a single line when it is an `ID=` line: the text after the
/// prefix with surrounding double quotes removed. Nothing otherwise.
fn id_line_value(line: &str) -> (r: Option<String>)
    ensures
        r is Some <==> is_id_line(line@),
        is_id_line(line@) ==> r.deep_view() == Some(trim_quotes(line@.skip(3))),
{
    let n = line.unicode_len();
    if n < 3 {
        return None;
    }
    if !(line.get_char(0) == 'I' && line.get_char(1) == 'D' && line.get_char(2) == '=') {
        proof {
            if is_id_line(line@) {
                assert(line@.subrange(0, 3)[0] == line@[0]);
                assert(line@.subrange(0, 3)[1] == line@[1]);
                assert(line@.subrange(0, 3)[2] == line@[2]);
            }
        }
        return None;
    }
    proof {
        assert(line@.subrange(0, 3) =~= id_prefix());
    }
    let mut lo: usize = 3;
    let mut hi: usize = n;
    proof {
        assert(line@.skip(3) =~= line@.subrange(3, n as int));
    }
    while lo < hi && line.get_char(lo) == '"'
        invariant
            3 <= lo <= hi <= n,
            n == line@.len(),
            trim_quotes(line@.skip(3)) == trim_quotes(line@.subrange(lo as int, hi as int)),
        decreases hi - lo,
    {
        proof {
            let cur = line@.subrange(lo as int, hi as int);
            assert(cur[0] == line@[lo as int]);
            assert(cur.drop_first() =~= line@.subrange(lo as int + 1, hi as int));
        }
        lo += 1;
    }
    while lo < hi && line.get_char(hi - 1) == '"'
        invariant
            3 <= lo <= hi <= n,
            n == line@.len(),
            trim_quotes(line@.skip(3)) == trim_quotes(line@.subrange(lo as int, hi as int)),
            lo < hi ==> line@[lo as int] != '"',
        decreases hi - lo,
    {
        proof {
            let cur = line@.subrange(lo as int, hi as int);
            assert(cur[0] == line@[lo as int]);
            assert(cur.last() == line@[hi as int - 1]);
            assert(cur.drop_last() =~= line@.subrange(lo as int, hi as int - 1));
        }
        hi -= 1;
    }
    proof {
        let cur = line@.subrange(lo as int, hi as int);
        if lo < hi {
            assert(cur[0] == line@[lo as int]);
            assert(cur.last() == line@[hi as int - 1]);
        }
        assert(trim_quotes(cur) == cur);
    }
    let v = line.substring_char(lo, hi);
    Some(v.to_owned())
}

/// Reads the distribution identifier out of release-file contents: the first
/// line beginning `ID=`, its prefix removed and surrounding double quotes
/// stripped. Nothing when no line begins with `ID=`.
pub fn os_release_id(contents: &str) -> (r: Option<String>)
    ensures
        r.deep_view() == spec_os_release_id(contents@),
    decreases contents@.len(),
{
    let n = contents.unicode_len();
    if n == 0 {
        return None;
    }
    let i = find_newline(contents);
    if i == n {
        proof {
            assert(split_lines(contents@) == seq![contents@]);
            assert(seq![contents@][0] == contents@);
            assert(seq![contents@].drop_first() =~= Seq::<Seq<char>>::empty());
            assert(first_id_value(Seq::<Seq<char>>::empty()) is None);
        }
        id_line_value(contents)
    } else {
        let raw = contents.substring_char(0, i);
        let line: &str = if raw.unicode_len() > 0 && raw.get_char(raw.unicode_len() - 1) == '\r' {
            contents.substring_char(0, i - 1)
        } else {
            raw
        };
        proof {
            let sub = contents@.subrange(0, i as int);
            if sub.len() > 0 && sub.last() == '\r' {
                assert(sub.drop_last() =~= contents@.subrange(0, i as int - 1));
            }
            assert(line@ == strip_cr(sub));
            let ls = split_lines(contents@);
            assert(ls == seq![strip_cr(sub)] + split_lines(
                contents@.subrange(i as int + 1, contents@.len() as int),
            ));
            assert(ls[0] == line@);
            assert(ls.drop_first() =~= split_lines(
                contents@.subrange(i as int + 1, contents@.len() as int),
            ));
        }
        match id_line_value(line) {
            Some(v) => Some(v),
            None => {
                let rest = contents.substring_char(i + 1, n);
                os_release_id(rest)
            },
        }
    }
}

/// Full detection from what the host shows: the release file's contents where
/// it could be read, and whether each fallback marker path exists. The release
/// file wins when it yields an identifier; otherwise the first existing marker
/// does, in the fixed order Debian, Red Hat, Arch; with none, detection
/// reports absence.
pub fn detect_distro(
    contents: Option<&str>,
    has_debian_marker: bool,
    has_redhat_marker: bool,
    has_arch_marker: bool,
) -> (r: Option<String>)
    ensures
        r.deep_view() == spec_detect(
            contents.deep_view(),
            has_debian_marker,
            has_redhat_marker,
            has_arch_marker,
        ),
{
    if let Some(c) = contents {
        if let Some(id) = os_release_id(c) {
            return Some(id);
        }
    }
    if has_debian_marker {
        Some("debian".to_owned())
    } else if has_redhat_marker {
        Some("rhel".to_owned())
    } else if has_arch_marker {
        Some("arch".to_owned())
    } else {
        None
    }
}

} // verus!

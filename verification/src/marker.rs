//! The marker that an installed server leaves behind: one line of text that
//! names the server type, the build and the game version, as in
//! `git-Paper-100 (MC: 1.20.1)`.

use vstd::prelude::*;
use vstd::string::*;

use crate::decimal::{
    build_number_value, decimal, is_build_number, is_digit, lemma_decimal_is_build_number,
    read_build_number, unsigned_part,
};
use crate::text::chars_of;

verus! {

/// What a marker records, as plain mathematical values.
pub struct LocalVersion {
    pub server_type: Seq<char>,
    pub mc_version: Seq<char>,
    pub build: u16,
}

/// What a marker records: the installed server type, game version and build.
#[derive(Debug, Clone, PartialEq, Eq)]
pub struct LocalVersionRecord {
    pub server_type: String,
    pub mc_version: String,
    pub build: u16,
}

impl View for LocalVersionRecord {
    type V = LocalVersion;

    open spec fn view(&self) -> LocalVersion {
        LocalVersion {
            server_type: self.server_type@,
            mc_version: self.mc_version@,
            build: self.build,
        }
    }
}

impl DeepView for LocalVersionRecord {
    type V = LocalVersion;

    open spec fn deep_view(&self) -> LocalVersion {
        self@
    }
}

/// Whether `s` is a single word: it holds no space.
pub open spec fn is_word(s: Seq<char>) -> bool {
    forall|i: int| 0 <= i < s.len() ==> #[trigger] s[i] != ' '
}

/// Whether `v` can stand as the game version of a marker: a word that does
/// not end in a closing parenthesis.
pub open spec fn is_version_name(v: Seq<char>) -> bool {
    is_word(v) && (v.len() > 0 ==> v.last() != ')')
}

/// `k` closing parentheses.
pub open spec fn closing(k: nat) -> Seq<char> {
    Seq::new(k, |i: int| ')')
}

/// The text `git-<server_type>-<digits> (MC: <mc_version>)`, closed by `k`
/// parentheses.
pub open spec fn marker_text(
    server_type: Seq<char>,
    digits: Seq<char>,
    mc_version: Seq<char>,
    k: nat,
) -> Seq<char> {
    seq!['g', 'i', 't', '-'] + server_type + seq!['-'] + digits + seq![' ', '(', 'M', 'C', ':', ' ']
        + mc_version + closing(k)
}

/// Whether `text` is the marker of `rec` with the build written as `digits`
/// and `k` closing parentheses.
pub open spec fn marker_written_as(text: Seq<char>, rec: LocalVersion, digits: Seq<char>, k: nat)
    -> bool {
    &&& is_word(rec.server_type)
    &&& is_version_name(rec.mc_version)
    &&& is_build_number(digits)
    &&& build_number_value(digits) == rec.build
    &&& k >= 1
    &&& text == marker_text(rec.server_type, digits, rec.mc_version, k)
}

/// Whether `text` is a marker of `rec`: it matches
/// `git-<server type>-<build> (MC: <game version>)`, where the server type
/// and the game version are words, the build is a build number, and the
/// game version is what stands before the closing parentheses.
pub open spec fn marker_denotes(text: Seq<char>, rec: LocalVersion) -> bool {
    exists|digits: Seq<char>, k: nat| #[trigger] marker_written_as(text, rec, digits, k)
}

/// The marker as a server writes it: the build in its shortest decimal
/// form, one closing parenthesis.
pub open spec fn written_marker(rec: LocalVersion) -> Seq<char> {
    marker_text(rec.server_type, decimal(rec.build as nat), rec.mc_version, 1)
}

/// What `text` records: the record that it is a marker of, if there is one.
pub open spec fn parsed_marker(text: Seq<char>) -> Option<LocalVersion> {
    if exists|rec: LocalVersion| marker_denotes(text, rec) {
        Some(choose|rec: LocalVersion| marker_denotes(text, rec))
    } else {
        None
    }
}

/// Where a marker is cut: `q` is the hyphen before the build, `p` the space
/// after it, `e` the first of the closing parentheses.
spec fn is_cut(text: Seq<char>, q: int, p: int, e: int) -> bool {
    &&& 4 <= q < p
    &&& p + 6 <= e < text.len()
    &&& text[0] == 'g' && text[1] == 'i' && text[2] == 't' && text[3] == '-'
    &&& forall|i: int| 0 <= i < p ==> #[trigger] text[i] != ' '
    &&& text[p] == ' ' && text[p + 1] == '(' && text[p + 2] == 'M' && text[p + 3] == 'C' && text[p
        + 4] == ':' && text[p + 5] == ' '
    &&& forall|i: int| p + 6 <= i < text.len() ==> #[trigger] text[i] != ' '
    &&& text[q] == '-'
    &&& forall|i: int| q < i < p ==> #[trigger] text[i] != '-'
    &&& forall|i: int| e <= i < text.len() ==> #[trigger] text[i] == ')'
    &&& e > p + 6 ==> text[e - 1] != ')'
    &&& is_build_number(text.subrange(q + 1, p))
}

/// The record that a marker cut at `q`, `p` and `e` holds.
spec fn record_at(text: Seq<char>, q: int, p: int, e: int) -> LocalVersion {
    LocalVersion {
        server_type: text.subrange(4, q),
        mc_version: text.subrange(p + 6, e),
        build: build_number_value(text.subrange(q + 1, p)) as u16,
    }
}

/// Where the hyphen before the build stands in a marker of `rec`.
spec fn hyphen_of(rec: LocalVersion) -> int {
    rec.server_type.len() as int + 4
}

/// Where the space after the build stands in a marker of `rec` whose build
/// is written as `digits`.
spec fn space_of(rec: LocalVersion, digits: Seq<char>) -> int {
    rec.server_type.len() as int + digits.len() as int + 5
}

/// The text of a build number holds neither a space nor a hyphen.
proof fn lemma_build_number_chars(digits: Seq<char>)
    requires
        is_build_number(digits),
    ensures
        forall|i: int| 0 <= i < digits.len() ==> #[trigger] digits[i] != ' ' && digits[i] != '-',
{
    let d = unsigned_part(digits);
    assert forall|i: int| 0 <= i < digits.len() implies #[trigger] digits[i] != ' ' && digits[i]
        != '-' by {
        if digits[0] == '+' {
            if i > 0 {
                assert(is_digit(d[i - 1]));
            }
        } else {
            assert(is_digit(d[i]));
        }
    }
}

/// A marker is cut where its parts meet, and the cut gives the parts back.
proof fn lemma_marker_is_cut(text: Seq<char>, rec: LocalVersion, digits: Seq<char>, k: nat)
    requires
        marker_written_as(text, rec, digits, k),
    ensures
        is_cut(text, hyphen_of(rec), space_of(rec, digits), text.len() - k),
        record_at(text, hyphen_of(rec), space_of(rec, digits), text.len() - k) == rec,
{
    let t = rec.server_type;
    let v = rec.mc_version;
    let q = hyphen_of(rec);
    let p = space_of(rec, digits);
    let e = p + 6 + v.len();
    lemma_build_number_chars(digits);
    assert(text.len() == e + k);
    assert forall|i: int| 0 <= i < p implies #[trigger] text[i] != ' ' by {
        if 4 <= i < q {
            assert(text[i] == t[i - 4]);
        } else if q < i {
            assert(text[i] == digits[i - q - 1]);
        }
    }
    assert forall|i: int| p + 6 <= i < text.len() implies #[trigger] text[i] != ' ' by {
        if i < e {
            assert(text[i] == v[i - p - 6]);
        } else {
            assert(text[i] == closing(k)[i - e]);
        }
    }
    assert forall|i: int| q < i < p implies #[trigger] text[i] != '-' by {
        assert(text[i] == digits[i - q - 1]);
    }
    assert forall|i: int| e <= i < text.len() implies #[trigger] text[i] == ')' by {
        assert(text[i] == closing(k)[i - e]);
    }
    if e > p + 6 {
        assert(text[e - 1] == v[v.len() - 1]);
    }
    assert(text.subrange(q + 1, p) =~= digits);
    assert(text.subrange(4, q) =~= t);
    assert(text.subrange(p + 6, e) =~= v);
}

/// A text is cut as a marker in one way at most.
proof fn lemma_cut_unique(
    text: Seq<char>,
    first_hyphen: int,
    first_space: int,
    first_close: int,
    other_hyphen: int,
    other_space: int,
    other_close: int,
)
    requires
        is_cut(text, first_hyphen, first_space, first_close),
        is_cut(text, other_hyphen, other_space, other_close),
    ensures
        first_hyphen == other_hyphen,
        first_space == other_space,
        first_close == other_close,
{
    if first_space < other_space {
        assert(text[first_space] != ' ');
    }
    if other_space < first_space {
        assert(text[other_space] != ' ');
    }
    if first_hyphen < other_hyphen {
        assert(text[other_hyphen] != '-');
    }
    if other_hyphen < first_hyphen {
        assert(text[first_hyphen] != '-');
    }
    if first_close < other_close {
        assert(text[other_close - 1] == ')');
    }
    if other_close < first_close {
        assert(text[first_close - 1] == ')');
    }
}

/// A text that is cut as a marker is the marker of the record at the cut.
proof fn lemma_cut_is_marker(text: Seq<char>, q: int, p: int, e: int)
    requires
        is_cut(text, q, p, e),
    ensures
        marker_denotes(text, record_at(text, q, p, e)),
{
    let rec = record_at(text, q, p, e);
    let digits = text.subrange(q + 1, p);
    let k = (text.len() - e) as nat;
    assert(is_word(rec.server_type)) by {
        assert forall|i: int| 0 <= i < rec.server_type.len() implies #[trigger] rec.server_type[i]
            != ' ' by {
            assert(rec.server_type[i] == text[i + 4]);
        }
    }
    assert(is_version_name(rec.mc_version)) by {
        assert forall|i: int| 0 <= i < rec.mc_version.len() implies #[trigger] rec.mc_version[i]
            != ' ' by {
            assert(rec.mc_version[i] == text[i + p + 6]);
        }
    }
    assert(text =~= marker_text(rec.server_type, digits, rec.mc_version, k));
    assert(marker_written_as(text, rec, digits, k));
}

/// A text is the marker of one record at most.
pub proof fn lemma_marker_unique(text: Seq<char>, a: LocalVersion, b: LocalVersion)
    requires
        marker_denotes(text, a),
        marker_denotes(text, b),
    ensures
        a == b,
{
    let (da, ka) = choose|digits: Seq<char>, k: nat| marker_written_as(text, a, digits, k);
    let (db, kb) = choose|digits: Seq<char>, k: nat| marker_written_as(text, b, digits, k);
    lemma_marker_is_cut(text, a, da, ka);
    lemma_marker_is_cut(text, b, db, kb);
    lemma_cut_unique(
        text,
        hyphen_of(a),
        space_of(a, da),
        text.len() - ka,
        hyphen_of(b),
        space_of(b, db),
        text.len() - kb,
    );
}

/// A text that matches the pattern of a marker records exactly the server
/// type, the build and the game version that stand in it.
pub proof fn lemma_marker_parses(text: Seq<char>, rec: LocalVersion)
    requires
        marker_denotes(text, rec),
    ensures
        parsed_marker(text) == Some(rec),
{
    let found = choose|r: LocalVersion| marker_denotes(text, r);
    lemma_marker_unique(text, found, rec);
}

/// A text that is cut as a marker records the record at the cut.
proof fn lemma_cut_parses(text: Seq<char>, q: int, p: int, e: int)
    requires
        is_cut(text, q, p, e),
    ensures
        parsed_marker(text) == Some(record_at(text, q, p, e)),
{
    lemma_cut_is_marker(text, q, p, e);
    lemma_marker_parses(text, record_at(text, q, p, e));
}

/// A text that is cut nowhere as a marker records nothing.
proof fn lemma_uncut_parses_to_none(text: Seq<char>)
    requires
        forall|q: int, p: int, e: int| !is_cut(text, q, p, e),
    ensures
        parsed_marker(text) is None,
{
    assert forall|rec: LocalVersion| !marker_denotes(text, rec) by {
        if marker_denotes(text, rec) {
            let (digits, k) = choose|digits: Seq<char>, k: nat|
                marker_written_as(text, rec, digits, k);
            lemma_marker_is_cut(text, rec, digits, k);
        }
    }
}

/// Reading a marker as a server writes it gives back exactly the server
/// type, the build and the game version that were written.
pub proof fn lemma_written_marker_parses(rec: LocalVersion)
    requires
        is_word(rec.server_type),
        is_version_name(rec.mc_version),
    ensures
        parsed_marker(written_marker(rec)) == Some(rec),
{
    let text = written_marker(rec);
    lemma_decimal_is_build_number(rec.build as nat);
    assert(marker_written_as(text, rec, decimal(rec.build as nat), 1));
    lemma_marker_parses(text, rec);
}


/// Where a marker was cut, and the build that stands between the cuts.
struct Cut {
    hyphen: usize,
    space: usize,
    close: usize,
    build: u16,
}

/// Cuts `cs` as a marker, if it is one.
fn find_cut(cs: &Vec<char>) -> (r: Option<Cut>)
    ensures
        match r {
            Some(c) => is_cut(cs@, c.hyphen as int, c.space as int, c.close as int) && c.build
                == build_number_value(cs@.subrange(c.hyphen + 1, c.space as int)),
            None => forall|q: int, p: int, e: int| !is_cut(cs@, q, p, e),
        },
{
    let n = cs.len();
    if n < 4 || cs[0] != 'g' || cs[1] != 'i' || cs[2] != 't' || cs[3] != '-' {
        return None;
    }
    let mut p: usize = 4;
    while p < n && cs[p] != ' '
        invariant
            4 <= p <= n == cs.len(),
            forall|i: int| 0 <= i < p ==> #[trigger] cs@[i] != ' ',
        decreases n - p,
    {
        p += 1;
    }
    if p >= n || n - p <= 6 {
        return None;
    }
    if cs[p + 1] != '(' || cs[p + 2] != 'M' || cs[p + 3] != 'C' || cs[p + 4] != ':' || cs[p + 5]
        != ' ' {
        return None;
    }
    let mut j: usize = p + 6;
    while j < n
        invariant
            p + 6 <= j <= n == cs.len(),
            cs@[p as int] == ' ',
            forall|i: int| 0 <= i < p ==> #[trigger] cs@[i] != ' ',
            forall|i: int| p + 6 <= i < j ==> #[trigger] cs@[i] != ' ',
        decreases n - j,
    {
        if cs[j] == ' ' {
            return None;
        }
        j += 1;
    }
    let mut e: usize = n;
    while e > p + 6 && cs[e - 1] == ')'
        invariant
            p + 6 <= e <= n == cs.len(),
            forall|i: int| e <= i < n ==> #[trigger] cs@[i] == ')',
        decreases e,
    {
        e -= 1;
    }
    if e == n {
        return None;
    }
    let mut q: usize = p;
    while q > 4 && cs[q - 1] != '-'
        invariant
            4 <= q <= p < cs.len(),
            forall|i: int| q <= i < p ==> #[trigger] cs@[i] != '-',
        decreases q,
    {
        q -= 1;
    }
    if q == 4 {
        return None;
    }
    let hyphen = q - 1;
    match read_build_number(cs, q, p) {
        None => None,
        Some(build) => Some(Cut { hyphen, space: p, close: e, build }),
    }
}

/// Reads a marker: `git-<server type>-<build> (MC: <game version>)`.
///
/// The result is the record that `version` is a marker of, and `None` where
/// it is a marker of none.
pub fn parse_version(version: &str) -> (r: Option<LocalVersionRecord>)
    ensures
        r.deep_view() == parsed_marker(version@),
{
    let cs = chars_of(version);
    match find_cut(&cs) {
        None => {
            proof {
                lemma_uncut_parses_to_none(cs@);
            }
            None
        },
        Some(cut) => {
            proof {
                lemma_cut_parses(cs@, cut.hyphen as int, cut.space as int, cut.close as int);
            }
            let server_type = version.substring_char(4, cut.hyphen).to_owned();
            let mc_version = version.substring_char(cut.space + 6, cut.close).to_owned();
            Some(LocalVersionRecord { server_type, mc_version, build: cut.build })
        },
    }
}


impl LocalVersionRecord {
    /// A copy of this record.
    pub fn duplicate(&self) -> (r: LocalVersionRecord)
        ensures
            r@ == self@,
    {
        LocalVersionRecord {
            server_type: self.server_type.clone(),
            mc_version: self.mc_version.clone(),
            build: self.build,
        }
    }
}

impl Default for LocalVersionRecord {
    /// The record that stands for "nothing installed": no server type, no
    /// game version, build 0.
    fn default() -> (r: LocalVersionRecord)
        ensures
            r@ == nothing_installed(),
    {
        LocalVersionRecord { server_type: String::new(), mc_version: String::new(), build: 0 }
    }
}

/// The record that stands for "nothing installed".
pub open spec fn nothing_installed() -> LocalVersion {
    LocalVersion { server_type: Seq::empty(), mc_version: Seq::empty(), build: 0 }
}

/// What is installed, for the decision: what the marker records, or
/// "nothing installed" where it records nothing.
pub open spec fn installed(local: Option<LocalVersion>) -> LocalVersion {
    match local {
        Some(rec) => rec,
        None => nothing_installed(),
    }
}

/// The record to decide with: the one that was read, or "nothing installed"
/// where none was.
pub fn recorded_or_default(local: Option<LocalVersionRecord>) -> (r: LocalVersionRecord)
    ensures
        r@ == installed(local.deep_view()),
{
    match local {
        Some(rec) => rec,
        None => LocalVersionRecord::default(),
    }
}

/// The member of the marker file that holds the marker.
pub open spec fn current_version_key() -> Seq<char> {
    "currentVersion"@
}

/// The string that the JSON document `text` holds under `key`: `None` where
/// `text` is no JSON document, where the document is no object or has no
/// member `key`, and where that member is no string.
pub uninterp spec fn json_string_member(text: Seq<char>, key: Seq<char>) -> Option<Seq<char>>;

/// Parses `text` with `serde_json::from_str` and reads the member `key` of
/// the document with `Value::get` and `Value::as_str`.
///
/// Nothing is proved of the JSON reader. The contract only gives its answer
/// a name: the same text and key always give the same answer.
#[verifier::external_body]
fn read_json_string_member(text: &str, key: &str) -> (r: Option<String>)
    ensures
        r.deep_view() == json_string_member(text@, key@),
{
    let document: serde_json::Value = match serde_json::from_str(text) {
        Ok(value) => value,
        Err(_) => return None,
    };
    match document.get(key) {
        Some(member) => member.as_str().map(String::from),
        None => None,
    }
}

/// What a marker file records, given what it holds under `currentVersion`.
pub open spec fn recorded_version(member: Option<Seq<char>>) -> Option<LocalVersion> {
    match member {
        Some(text) => parsed_marker(text),
        None => None,
    }
}

/// What a marker file records, given the string found under
/// `currentVersion`, if one was found.
pub fn version_of_member(member: Option<&str>) -> (r: Option<LocalVersionRecord>)
    ensures
        r.deep_view() == recorded_version(member.deep_view()),
{
    match member {
        Some(text) => parse_version(text),
        None => None,
    }
}

/// What the marker file of `contents` records; `contents` is `None` where
/// the file is missing or cannot be read.
pub open spec fn file_record(contents: Option<Seq<char>>) -> Option<LocalVersion> {
    match contents {
        Some(text) => recorded_version(json_string_member(text, current_version_key())),
        None => None,
    }
}

/// Reads what the marker file records. `contents` is the text of the file,
/// or `None` where the file is missing or cannot be read.
///
/// The result is a record exactly where the file is there, is a JSON
/// document with a string under `currentVersion`, and that string is a
/// marker. In every other case it is `None`: the reader never fails.
pub fn get_local_version_information(contents: Option<&str>) -> (r: Option<LocalVersionRecord>)
    ensures
        r.deep_view() == file_record(contents.deep_view()),
{
    match contents {
        None => None,
        Some(text) => {
            match read_json_string_member(text, "currentVersion") {
                Some(member) => version_of_member(Some(member.as_str())),
                None => version_of_member(None),
            }
        },
    }
}


/// A marker file that is missing, that holds no string under
/// `currentVersion`, or whose string there matches the pattern of no marker,
/// records nothing; the decision is then made with "nothing installed",
/// whose build is 0.
pub proof fn lemma_absent_marker_records_nothing(contents: Option<Seq<char>>)
    requires
        match contents {
            None => true,
            Some(text) => match json_string_member(text, current_version_key()) {
                None => true,
                Some(member) => forall|rec: LocalVersion| !marker_denotes(member, rec),
            },
        },
    ensures
        file_record(contents) is None,
        installed(file_record(contents)) == nothing_installed(),
        installed(file_record(contents)).build == 0,
{
}

} // verus!

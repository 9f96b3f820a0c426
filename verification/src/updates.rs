//! The update aggregator: package identifiers, per-package security
//! classification from detail notifications, and the merge of the two
//! notification streams into structured update records.

use vstd::prelude::*;

use crate::text::{chars_to_string, str_to_chars};

verus! {

/// One pending update, derived from a package identifier and its
/// detail notification.
#[derive(Debug)]
pub struct UpdateInfo {
    /// The service-defined identifier, kept verbatim.
    pub package_id: String,
    /// The identifier's first semicolon-delimited field.
    pub name: String,
    /// The identifier's second semicolon-delimited field, or
    /// `unknown` when the identifier has no second field.
    pub version: String,
    /// Whether the update is security-relevant.
    pub is_security: bool,
}

impl Clone for UpdateInfo {
    /// A clone carries the same characters and flag.
    fn clone(&self) -> (r: Self)
        ensures
            r.package_id@ == self.package_id@,
            r.name@ == self.name@,
            r.version@ == self.version@,
            r.is_security == self.is_security,
    {
        UpdateInfo {
            package_id: self.package_id.clone(),
            name: self.name.clone(),
            version: self.version.clone(),
            is_security: self.is_security,
        }
    }
}

/// The first position of `c` in `s` at or after `from`, or the length
/// of `s` when `c` does not occur there.
pub open spec fn idx_of(s: Seq<char>, c: char, from: int) -> int
    decreases s.len() - from,
{
    if !(0 <= from < s.len()) {
        s.len() as int
    } else if s[from] == c {
        from
    } else {
        idx_of(s, c, from + 1)
    }
}

/// The name encoded in a package identifier: everything before the
/// first semicolon.
pub open spec fn pkid_name(s: Seq<char>) -> Seq<char> {
    s.take(idx_of(s, ';', 0))
}

/// The version encoded in a package identifier: the second
/// semicolon-delimited field, or `unknown` when there is none.
pub open spec fn pkid_version(s: Seq<char>) -> Seq<char> {
    let a = idx_of(s, ';', 0);
    if a == s.len() {
        "unknown"@
    } else {
        s.subrange(a + 1, idx_of(s, ';', a + 1))
    }
}

/// `idx_of` is where the scanning loop stops: no occurrence before
/// `i`, and either an occurrence or the end at `i`.
proof fn lemma_idx_of_scan(s: Seq<char>, c: char, from: int, i: int)
    requires
        0 <= from <= i <= s.len(),
        forall|j: int| from <= j < i ==> s[j] != c,
        i < s.len() ==> s[i] == c,
    ensures
        idx_of(s, c, from) == i,
    decreases i - from,
{
    if from < i {
        lemma_idx_of_scan(s, c, from + 1, i);
    }
}

/// The first occurrence of `c` in `s` at or after `from`, or the
/// length of `s`.
fn find_char(s: &Vec<char>, c: char, from: usize) -> (r: usize)
    requires
        from <= s@.len(),
    ensures
        r == idx_of(s@, c, from as int),
        from <= r <= s@.len(),
        r < s@.len() ==> s@[r as int] == c,
        forall|j: int| from <= j < r ==> s@[j] != c,
{
    let mut i: usize = from;
    while i < s.len() && s[i] != c
        invariant
            from <= i <= s@.len(),
            forall|j: int| from <= j < i ==> s@[j] != c,
        decreases s@.len() - i,
    {
        i = i + 1;
    }
    proof {
        lemma_idx_of_scan(s@, c, from as int, i as int);
    }
    i
}

/// Copies `s[from..to]` into a fresh string.
fn copy_range(s: &Vec<char>, from: usize, to: usize) -> (r: String)
    requires
        from <= to <= s@.len(),
    ensures
        r@ == s@.subrange(from as int, to as int),
{
    let mut out: Vec<char> = Vec::new();
    let mut i: usize = from;
    while i < to
        invariant
            from <= i <= to <= s@.len(),
            out@ == s@.subrange(from as int, i as int),
        decreases to - i,
    {
        out.push(s[i]);
        proof {
            assert(s@.subrange(from as int, i + 1int) =~= s@.subrange(from as int, i as int).push(
                s@[i as int],
            ));
        }
        i = i + 1;
    }
    chars_to_string(&out)
}

/// Splits a package identifier into an update record: the first
/// semicolon-delimited field is the name, the second the version
/// (`unknown` when the identifier has no second field), and the
/// security flag is taken as given.
pub fn parse_package_id(package_id: &str, is_security: bool) -> (r: Option<UpdateInfo>)
    ensures
        r matches Some(u) && u.package_id@ == package_id@ && u.name@ == pkid_name(package_id@)
            && u.version@ == pkid_version(package_id@) && u.is_security == is_security,
{
    let v = str_to_chars(package_id);
    let a = find_char(&v, ';', 0);
    let name = copy_range(&v, 0, a);
    proof {
        assert(v@.subrange(0, a as int) =~= v@.take(a as int));
    }
    let version: String = if a == v.len() {
        "unknown".to_owned()
    } else {
        let b = find_char(&v, ';', a + 1);
        copy_range(&v, a + 1, b)
    };
    Some(
        UpdateInfo {
            package_id: package_id.to_owned(),
            name,
            version,
            is_security,
        },
    )
}

/// The marker that flags an update text or changelog as a security
/// advisory.
pub open spec fn security_marker() -> Seq<char> {
    "CVE-"@
}

/// Whether `pat` occurs in `s` starting at `i`.
pub open spec fn contains_at(s: Seq<char>, pat: Seq<char>, i: int) -> bool {
    0 <= i <= s.len() - pat.len() && s.subrange(i, i + pat.len()) == pat
}

/// Whether `pat` occurs anywhere in `s`.
pub open spec fn contains_seq(s: Seq<char>, pat: Seq<char>) -> bool {
    exists|i: int| contains_at(s, pat, i)
}

/// Whether the characters of `pat` occur contiguously in `s`.
fn contains_chars(s: &Vec<char>, pat: &Vec<char>) -> (r: bool)
    requires
        pat@.len() >= 1,
    ensures
        r == contains_seq(s@, pat@),
{
    if s.len() < pat.len() {
        return false;
    }
    let last = s.len() - pat.len();
    let mut i: usize = 0;
    while i <= last
        invariant
            0 <= i <= last + 1,
            last == s@.len() - pat@.len(),
            last < s@.len() <= usize::MAX,
            pat@.len() >= 1,
            forall|k: int| 0 <= k < i ==> !contains_at(s@, pat@, k),
        decreases last + 1 - i,
    {
        let mut j: usize = 0;
        let mut matched = true;
        while j < pat.len()
            invariant
                0 <= j <= pat@.len(),
                pat@.len() >= 1,
                i + pat@.len() <= s@.len() <= usize::MAX,
                matched <==> forall|k: int| 0 <= k < j ==> s@[i + k] == pat@[k],
            decreases pat@.len() - j,
        {
            if s[i + j] != pat[j] {
                matched = false;
                proof {
                    assert(s@[i + j] != pat@[j as int]);
                }
                j = pat.len();
            } else {
                proof {
                    assert(s@[i + j] == pat@[j as int]);
                }
                j = j + 1;
            }
        }
        if matched {
            proof {
                assert(s@.subrange(i as int, i + pat@.len()) =~= pat@);
                assert(contains_at(s@, pat@, i as int));
            }
            return true;
        }
        proof {
            assert(!(s@.subrange(i as int, i + pat@.len()) =~= pat@));
        }
        i = i + 1;
    }
    proof {
        assert(forall|k: int| contains_at(s@, pat@, k) ==> 0 <= k < i);
    }
    false
}

/// Whether a detail notification marks its package as a security
/// update: a non-empty CVE reference list, or the security-advisory
/// marker in the update text or the changelog.
pub open spec fn classify_security_spec(
    cve_count: nat,
    update_text: Seq<char>,
    changelog: Seq<char>,
) -> bool {
    cve_count > 0 || contains_seq(update_text, security_marker()) || contains_seq(
        changelog,
        security_marker(),
    )
}

/// Classifies one detail notification: security when the CVE reference
/// list is non-empty or the advisory marker occurs in the update text
/// or the changelog.
pub fn classify_security(cve_urls: &Vec<String>, update_text: &str, changelog: &str) -> (r: bool)
    ensures
        r == classify_security_spec(cve_urls@.len() as nat, update_text@, changelog@),
{
    if cve_urls.len() > 0 {
        return true;
    }
    let marker = str_to_chars("CVE-");
    proof {
        reveal_strlit("CVE-");
        assert(marker@.len() == 4);
    }
    let text = str_to_chars(update_text);
    if contains_chars(&text, &marker) {
        return true;
    }
    let log = str_to_chars(changelog);
    contains_chars(&log, &marker)
}

/// One received detail notification, reduced to what the aggregator
/// reads: the package identifier and its security classification.
#[derive(Debug)]
pub struct DetailNote {
    pub package_id: String,
    pub is_security: bool,
}

/// The classification that the detail notifications assign to `id`:
/// the last notification for `id` wins, and a package without one is
/// not a security update.
pub open spec fn detail_security(details: Seq<DetailNote>, id: Seq<char>) -> bool
    decreases details.len(),
{
    if details.len() == 0 {
        false
    } else if details.last().package_id@ == id {
        details.last().is_security
    } else {
        detail_security(details.drop_last(), id)
    }
}

/// A scan from the end that stops at the first match computes
/// [`detail_security`].
proof fn lemma_detail_scan(details: Seq<DetailNote>, id: Seq<char>, j: int)
    requires
        0 <= j <= details.len(),
        forall|k: int| j <= k < details.len() ==> (#[trigger] details[k].package_id@) != id,
    ensures
        j == 0 ==> !detail_security(details, id),
        j > 0 && details[j - 1].package_id@ == id ==> detail_security(details, id) == details[j
            - 1].is_security,
    decreases details.len(),
{
    if details.len() == 0 {
    } else if j < details.len() {
        assert(details.last().package_id@ != id);
        let d = details.drop_last();
        assert(forall|k: int| j <= k < d.len() ==> (#[trigger] d[k].package_id@) != id) by {
            assert(forall|k: int| 0 <= k < d.len() ==> d[k] == details[k]);
        }
        lemma_detail_scan(d, id, j);
    }
}

/// Looks up the classification of `id` in the received details: the
/// last notification for `id` wins; a package without one defaults to
/// not security-relevant.
fn lookup_security(details: &Vec<DetailNote>, id: &String) -> (r: bool)
    ensures
        r == detail_security(details@, id@),
{
    let mut j: usize = details.len();
    while j > 0
        invariant
            0 <= j <= details@.len(),
            forall|k: int| j <= k < details@.len() ==> (#[trigger] details@[k].package_id@) != id@,
        decreases j,
    {
        if details[j - 1].package_id == *id {
            proof {
                lemma_detail_scan(details@, id@, j as int);
            }
            return details[j - 1].is_security;
        }
        j = j - 1;
    }
    proof {
        lemma_detail_scan(details@, id@, 0);
    }
    false
}

/// What one merged record holds for identifier `id`.
pub open spec fn record_matches(u: UpdateInfo, id: Seq<char>, details: Seq<DetailNote>) -> bool {
    &&& u.package_id@ == id
    &&& u.name@ == pkid_name(id)
    &&& u.version@ == pkid_version(id)
    &&& u.is_security == detail_security(details, id)
}

/// Merges the enumerate and detail-fetch phases: one record per
/// enumerated identifier, in delivery order (duplicates preserved),
/// each classified by its detail notification, defaulting to not
/// security-relevant when no detail arrived for it.
pub fn build_update_records(ids: &Vec<String>, details: &Vec<DetailNote>) -> (r: Vec<UpdateInfo>)
    ensures
        r@.len() == ids@.len(),
        forall|i: int|
            0 <= i < ids@.len() ==> record_matches(#[trigger] r@[i], ids@[i]@, details@),
{
    let mut out: Vec<UpdateInfo> = Vec::new();
    let mut i: usize = 0;
    while i < ids.len()
        invariant
            0 <= i <= ids@.len(),
            out@.len() == i,
            forall|k: int|
                0 <= k < i ==> record_matches(#[trigger] out@[k], ids@[k]@, details@),
        decreases ids@.len() - i,
    {
        let sec = lookup_security(details, &ids[i]);
        match parse_package_id(ids[i].as_str(), sec) {
            Some(u) => {
                out.push(u);
            },
            None => {
                // Unreachable: every identifier yields a record.
            },
        }
        i = i + 1;
    }
    out
}

} // verus!

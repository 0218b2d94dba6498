//! The name-constraints engine: matching of general names against
//! permitted and excluded subtree bases, detection of constraint forms the
//! engine does not evaluate, and the peer-name constraint set built from a
//! test vector's expected names.
use vstd::prelude::*;
use crate::bytes::{
    bytes_eq, contains_byte, copy_bytes, ends_with, head_to, host_start, spec_contains_byte,
    spec_ends_with, spec_host_start, spec_starts_with, starts_with, tail_from,
};
use crate::model::{CertData, GeneralNameValue, NameConstraintsData, PeerKind, PeerNameData, TestcaseData};

verus! {

/// Whether DNS name `name` lies in the subtree named by `base`.
/// A base of the form `.example.com` matches any name ending in it; a bare
/// `example.com` matches itself and any name below it on a label boundary.
pub open spec fn spec_dns_match(base: Seq<u8>, name: Seq<u8>) -> bool {
    if base.len() > 0 && base[0] == 46u8 {
        spec_ends_with(name, base)
    } else {
        name == base || (name.len() > base.len() && spec_ends_with(name, base) && name[
            name.len() - base.len() - 1
        ] == 46u8)
    }
}

pub fn dns_match(base: &Vec<u8>, name: &Vec<u8>) -> (r: bool)
    ensures
        r == spec_dns_match(base@, name@),
{
    if base.len() > 0 && base[0] == 46u8 {
        ends_with(name, base)
    } else if bytes_eq(name, base) {
        true
    } else {
        name.len() > base.len() && ends_with(name, base) && name[name.len() - base.len() - 1]
            == 46u8
    }
}

/// Whether mailbox name `name` lies in the subtree named by `base`. A base
/// holding `@` names one mailbox; otherwise it names a host (or, with a
/// leading dot, a domain) and the host portion of `name` must match.
pub open spec fn spec_rfc822_match(base: Seq<u8>, name: Seq<u8>) -> bool {
    if spec_contains_byte(base, 64u8) {
        base == name
    } else {
        let host = name.subrange(spec_host_start(name), name.len() as int);
        if base.len() > 0 && base[0] == 46u8 {
            spec_ends_with(host, base)
        } else {
            host == base
        }
    }
}

pub fn rfc822_match(base: &Vec<u8>, name: &Vec<u8>) -> (r: bool)
    ensures
        r == spec_rfc822_match(base@, name@),
{
    if contains_byte(base, 64u8) {
        bytes_eq(base, name)
    } else {
        let host = tail_from(name, host_start(name));
        if base.len() > 0 && base[0] == 46u8 {
            ends_with(&host, base)
        } else {
            bytes_eq(&host, base)
        }
    }
}

/// The content octets of a DER Name encoding: what follows the outer
/// SEQUENCE header, which is the concatenation of the name's relative
/// distinguished names. A string that does not begin with such a header
/// is taken as it stands; a length that overruns the string is clamped.
pub open spec fn spec_rdn_bytes(s: Seq<u8>) -> Seq<u8> {
    if s.len() >= 2 && s[0] == 0x30u8 {
        if s[1] < 0x80u8 {
            let end = if 2 + s[1] <= s.len() {
                2 + s[1]
            } else {
                s.len() as int
            };
            s.subrange(2, end)
        } else if s[1] == 0x81u8 && s.len() >= 3 {
            let end = if 3 + s[2] <= s.len() {
                3 + s[2]
            } else {
                s.len() as int
            };
            s.subrange(3, end)
        } else if s[1] == 0x82u8 && s.len() >= 4 {
            let end = if 4 + 256 * s[2] + s[3] <= s.len() {
                4 + 256 * s[2] + s[3]
            } else {
                s.len() as int
            };
            s.subrange(4, end)
        } else {
            s
        }
    } else {
        s
    }
}

fn rdn_bytes(s: &Vec<u8>) -> (r: Vec<u8>)
    ensures
        r@ == spec_rdn_bytes(s@),
{
    let n = s.len();
    if n >= 2 && s[0] == 0x30u8 {
        if s[1] < 0x80u8 {
            let l = s[1] as usize;
            let end = if 2 + l <= n {
                2 + l
            } else {
                n
            };
            let t = tail_from(s, 2);
            let r = head_to(&t, end - 2);
            proof {
                assert(r@ =~= spec_rdn_bytes(s@));
            }
            r
        } else if s[1] == 0x81u8 && n >= 3 {
            let l = s[2] as usize;
            let end = if 3 + l <= n {
                3 + l
            } else {
                n
            };
            let t = tail_from(s, 3);
            let r = head_to(&t, end - 3);
            proof {
                assert(r@ =~= spec_rdn_bytes(s@));
            }
            r
        } else if s[1] == 0x82u8 && n >= 4 {
            let l: usize = 256 * (s[2] as usize) + (s[3] as usize);
            let end = if 4 + l <= n {
                4 + l
            } else {
                n
            };
            let t = tail_from(s, 4);
            let r = head_to(&t, end - 4);
            proof {
                assert(r@ =~= spec_rdn_bytes(s@));
            }
            r
        } else {
            copy_bytes(s)
        }
    } else {
        copy_bytes(s)
    }
}

/// Whether DER-encoded directory name `name` lies in the subtree whose
/// base is `base`: the base's relative distinguished names must lead the
/// name's, which on the encodings is a prefix of the content octets.
pub open spec fn spec_dir_match(base: Seq<u8>, name: Seq<u8>) -> bool {
    spec_starts_with(spec_rdn_bytes(name), spec_rdn_bytes(base))
}

pub fn dir_match(base: &Vec<u8>, name: &Vec<u8>) -> (r: bool)
    ensures
        r == spec_dir_match(base@, name@),
{
    starts_with(&rdn_bytes(name), &rdn_bytes(base))
}


/// The first position in `s`, from `i` on, where the three bytes `://`
/// begin, or -1 when they never do.
pub open spec fn spec_scheme_end(s: Seq<u8>, i: int) -> int
    decreases s.len() - i,
{
    if i < 0 || i + 3 > s.len() {
        -1
    } else if s[i] == 58u8 && s[i + 1] == 47u8 && s[i + 2] == 47u8 {
        i
    } else {
        spec_scheme_end(s, i + 1)
    }
}

/// The first position in `s`, from `i` on, holding `/`, `?` or `#`, or
/// the length when none does: the end of a URI's authority component.
pub open spec fn spec_authority_end(s: Seq<u8>, i: int) -> int
    decreases s.len() - i,
{
    if i < 0 || i >= s.len() {
        s.len() as int
    } else if s[i] == 47u8 || s[i] == 63u8 || s[i] == 35u8 {
        i
    } else {
        spec_authority_end(s, i + 1)
    }
}

/// The first position in `s`, from `i` on, holding `:`, or the length
/// when none does: where a port suffix would begin.
pub open spec fn spec_colon_at(s: Seq<u8>, i: int) -> int
    decreases s.len() - i,
{
    if i < 0 || i >= s.len() {
        s.len() as int
    } else if s[i] == 58u8 {
        i
    } else {
        spec_colon_at(s, i + 1)
    }
}

/// The host portion of a URI byte string: what follows the scheme's
/// `://` (or the whole string without one), cut at the end of the
/// authority, with any user information before `@` and any port after
/// `:` removed.
pub open spec fn spec_uri_host(s: Seq<u8>) -> Seq<u8> {
    let p = spec_scheme_end(s, 0);
    let rest = if p >= 0 {
        s.subrange(p + 3, s.len() as int)
    } else {
        s
    };
    let auth = rest.subrange(0, spec_authority_end(rest, 0));
    let hostport = auth.subrange(spec_host_start(auth), auth.len() as int);
    hostport.subrange(0, spec_colon_at(hostport, 0))
}

#[verifier::loop_isolation(false)]
fn scheme_end(s: &Vec<u8>) -> (r: Option<usize>)
    ensures
        r matches Some(p) ==> spec_scheme_end(s@, 0) == p && p + 3 <= s@.len(),
        r is None ==> spec_scheme_end(s@, 0) == -1,
{
    if s.len() < 3 {
        return None;
    }
    let mut i: usize = 0;
    while i <= s.len() - 3
        invariant
            s@.len() >= 3,
            i <= s@.len(),
            spec_scheme_end(s@, 0) == spec_scheme_end(s@, i as int),
        decreases s.len() - i,
    {
        if s[i] == 58u8 && s[i + 1] == 47u8 && s[i + 2] == 47u8 {
            return Some(i);
        }
        i += 1;
    }
    None
}

#[verifier::loop_isolation(false)]
fn authority_end(s: &Vec<u8>) -> (r: usize)
    ensures
        r == spec_authority_end(s@, 0),
        r <= s@.len(),
{
    let mut i: usize = 0;
    while i < s.len()
        invariant
            i <= s@.len(),
            spec_authority_end(s@, 0) == spec_authority_end(s@, i as int),
        decreases s.len() - i,
    {
        if s[i] == 47u8 || s[i] == 63u8 || s[i] == 35u8 {
            return i;
        }
        i += 1;
    }
    i
}

#[verifier::loop_isolation(false)]
fn colon_at(s: &Vec<u8>) -> (r: usize)
    ensures
        r == spec_colon_at(s@, 0),
        r <= s@.len(),
{
    let mut i: usize = 0;
    while i < s.len()
        invariant
            i <= s@.len(),
            spec_colon_at(s@, 0) == spec_colon_at(s@, i as int),
        decreases s.len() - i,
    {
        if s[i] == 58u8 {
            return i;
        }
        i += 1;
    }
    i
}

/// Extracts the host portion of a URI byte string.
pub fn uri_host(s: &Vec<u8>) -> (r: Vec<u8>)
    ensures
        r@ == spec_uri_host(s@),
{
    let n = s.len();
    let rest = match scheme_end(s) {
        Some(p) => {
            proof {
                assert(p + 3 <= n);
            }
            tail_from(s, p + 3)
        },
        None => copy_bytes(s),
    };
    let auth = head_to(&rest, authority_end(&rest));
    let hostport = tail_from(&auth, host_start(&auth));
    let r = head_to(&hostport, colon_at(&hostport));
    proof {
        assert(r@ =~= spec_uri_host(s@));
    }
    r
}

/// Whether `base` and `name` are of the same evaluated name form. Forms
/// this engine does not evaluate (IP address, other-name, EDI party name)
/// never constrain.
pub open spec fn spec_same_form(base: GeneralNameValue, name: GeneralNameValue) -> bool {
    match (base, name) {
        (GeneralNameValue::Dns(_), GeneralNameValue::Dns(_)) => true,
        (GeneralNameValue::Rfc822(_), GeneralNameValue::Rfc822(_)) => true,
        (GeneralNameValue::Uri(_), GeneralNameValue::Uri(_)) => true,
        (GeneralNameValue::Directory(_), GeneralNameValue::Directory(_)) => true,
        (GeneralNameValue::UserPrincipal(_), GeneralNameValue::UserPrincipal(_)) => true,
        _ => false,
    }
}

pub fn same_form(base: &GeneralNameValue, name: &GeneralNameValue) -> (r: bool)
    ensures
        r == spec_same_form(*base, *name),
{
    match (base, name) {
        (GeneralNameValue::Dns(_), GeneralNameValue::Dns(_)) => true,
        (GeneralNameValue::Rfc822(_), GeneralNameValue::Rfc822(_)) => true,
        (GeneralNameValue::Uri(_), GeneralNameValue::Uri(_)) => true,
        (GeneralNameValue::Directory(_), GeneralNameValue::Directory(_)) => true,
        (GeneralNameValue::UserPrincipal(_), GeneralNameValue::UserPrincipal(_)) => true,
        _ => false,
    }
}

/// Whether `name` lies in the subtree with base `base`. A uniform
/// resource identifier is matched by its host portion, with the DNS
/// suffix rule; user-principal names by equality.
pub open spec fn spec_gn_matches(base: GeneralNameValue, name: GeneralNameValue) -> bool {
    match (base, name) {
        (GeneralNameValue::Dns(b), GeneralNameValue::Dns(n)) => spec_dns_match(b@, n@),
        (GeneralNameValue::Rfc822(b), GeneralNameValue::Rfc822(n)) => spec_rfc822_match(b@, n@),
        (GeneralNameValue::Uri(b), GeneralNameValue::Uri(n)) => spec_dns_match(
            b@,
            spec_uri_host(n@),
        ),
        (GeneralNameValue::Directory(b), GeneralNameValue::Directory(n)) => spec_dir_match(
            b@,
            n@,
        ),
        (GeneralNameValue::UserPrincipal(b), GeneralNameValue::UserPrincipal(n)) => b@ == n@,
        _ => false,
    }
}

pub fn gn_matches(base: &GeneralNameValue, name: &GeneralNameValue) -> (r: bool)
    ensures
        r == spec_gn_matches(*base, *name),
{
    match (base, name) {
        (GeneralNameValue::Dns(b), GeneralNameValue::Dns(n)) => dns_match(b, n),
        (GeneralNameValue::Rfc822(b), GeneralNameValue::Rfc822(n)) => rfc822_match(b, n),
        (GeneralNameValue::Uri(b), GeneralNameValue::Uri(n)) => dns_match(b, &uri_host(n)),
        (GeneralNameValue::Directory(b), GeneralNameValue::Directory(n)) => dir_match(b, n),
        (GeneralNameValue::UserPrincipal(b), GeneralNameValue::UserPrincipal(n)) => bytes_eq(b, n),
        _ => false,
    }
}

/// Whether some subtree base in `subtrees` is of the same form as `name`.
pub open spec fn spec_form_constrained(subtrees: Seq<GeneralNameValue>, name: GeneralNameValue) -> bool {
    exists|j: int| 0 <= j < subtrees.len() && spec_same_form(subtrees[j], name)
}

pub fn form_constrained_by(subtrees: &Vec<GeneralNameValue>, name: &GeneralNameValue) -> (r: bool)
    ensures
        r == spec_form_constrained(subtrees@, *name),
{
    let mut j: usize = 0;
    while j < subtrees.len()
        invariant
            j <= subtrees@.len(),
            forall|k: int| 0 <= k < j ==> !spec_same_form(subtrees@[k], *name),
        decreases subtrees.len() - j,
    {
        if same_form(&subtrees[j], name) {
            return true;
        }
        j += 1;
    }
    false
}

/// Whether `name` lies in some subtree of `subtrees`.
pub open spec fn spec_name_in_subtrees(subtrees: Seq<GeneralNameValue>, name: GeneralNameValue) -> bool {
    exists|j: int| 0 <= j < subtrees.len() && spec_gn_matches(subtrees[j], name)
}

pub fn name_in_subtrees(subtrees: &Vec<GeneralNameValue>, name: &GeneralNameValue) -> (r: bool)
    ensures
        r == spec_name_in_subtrees(subtrees@, *name),
{
    let mut j: usize = 0;
    while j < subtrees.len()
        invariant
            j <= subtrees@.len(),
            forall|k: int| 0 <= k < j ==> !spec_gn_matches(subtrees@[k], *name),
        decreases subtrees.len() - j,
    {
        if gn_matches(&subtrees[j], name) {
            return true;
        }
        j += 1;
    }
    false
}

/// Every name in `names` whose form is constrained by `subtrees` lies in
/// one of those subtrees.
pub open spec fn spec_names_permitted(subtrees: Seq<GeneralNameValue>, names: Seq<GeneralNameValue>) -> bool {
    forall|i: int|
        0 <= i < names.len() && spec_form_constrained(subtrees, names[i])
            ==> spec_name_in_subtrees(subtrees, names[i])
}

pub fn names_permitted(subtrees: &Vec<GeneralNameValue>, names: &Vec<GeneralNameValue>) -> (r: bool)
    ensures
        r == spec_names_permitted(subtrees@, names@),
{
    let mut i: usize = 0;
    while i < names.len()
        invariant
            i <= names@.len(),
            forall|k: int|
                0 <= k < i && spec_form_constrained(subtrees@, names@[k])
                    ==> spec_name_in_subtrees(subtrees@, names@[k]),
        decreases names.len() - i,
    {
        if form_constrained_by(subtrees, &names[i]) && !name_in_subtrees(subtrees, &names[i]) {
            return false;
        }
        i += 1;
    }
    true
}

/// Some name in `names` lies in some subtree of `subtrees`.
pub open spec fn spec_names_excluded_hit(subtrees: Seq<GeneralNameValue>, names: Seq<GeneralNameValue>) -> bool {
    exists|i: int| 0 <= i < names.len() && spec_name_in_subtrees(subtrees, names[i])
}

pub fn names_excluded_hit(subtrees: &Vec<GeneralNameValue>, names: &Vec<GeneralNameValue>) -> (r: bool)
    ensures
        r == spec_names_excluded_hit(subtrees@, names@),
{
    let mut i: usize = 0;
    while i < names.len()
        invariant
            i <= names@.len(),
            forall|k: int| 0 <= k < i ==> !spec_name_in_subtrees(subtrees@, names@[k]),
        decreases names.len() - i,
    {
        if name_in_subtrees(subtrees, &names[i]) {
            return true;
        }
        i += 1;
    }
    false
}

/// Whether some subtree base in `subtrees` is a directory name.
pub open spec fn spec_dir_form_constrained(subtrees: Seq<GeneralNameValue>) -> bool {
    exists|j: int|
        0 <= j < subtrees.len() && (#[trigger] subtrees[j]) matches GeneralNameValue::Directory(_)
}

/// Whether DER directory name `nm` lies in some directory subtree.
pub open spec fn spec_dir_in_subtrees(subtrees: Seq<GeneralNameValue>, nm: Seq<u8>) -> bool {
    exists|j: int|
        0 <= j < subtrees.len() && ((#[trigger] subtrees[j]) matches GeneralNameValue::Directory(b)
            && spec_dir_match(b@, nm))
}

pub fn dir_in_subtrees(subtrees: &Vec<GeneralNameValue>, nm: &Vec<u8>) -> (r: bool)
    ensures
        r == spec_dir_in_subtrees(subtrees@, nm@),
{
    let mut j: usize = 0;
    while j < subtrees.len()
        invariant
            j <= subtrees@.len(),
            forall|k: int|
                0 <= k < j ==> !((#[trigger] subtrees@[k]) matches GeneralNameValue::Directory(b)
                    && spec_dir_match(b@, nm@)),
        decreases subtrees.len() - j,
    {
        if let GeneralNameValue::Directory(b) = &subtrees[j] {
            if dir_match(b, nm) {
                return true;
            }
        }
        j += 1;
    }
    false
}

pub fn dir_form_constrained(subtrees: &Vec<GeneralNameValue>) -> (r: bool)
    ensures
        r == spec_dir_form_constrained(subtrees@),
{
    let mut j: usize = 0;
    while j < subtrees.len()
        invariant
            j <= subtrees@.len(),
            forall|k: int|
                0 <= k < j ==> !((#[trigger] subtrees@[k]) matches GeneralNameValue::Directory(_)),
        decreases subtrees.len() - j,
    {
        if let GeneralNameValue::Directory(_) = &subtrees[j] {
            return true;
        }
        j += 1;
    }
    false
}

/// The leaf's checked names are its subject (a directory name, when not
/// empty) and its subject-alternative names. This holds when every such
/// name of a constrained form lies in a permitted subtree of `subtrees`.
pub open spec fn spec_leaf_permitted_ok(subtrees: Seq<GeneralNameValue>, t: CertData) -> bool {
    ((t.subject@.len() > 0 && spec_dir_form_constrained(subtrees)) ==> spec_dir_in_subtrees(
        subtrees,
        t.subject@,
    )) && (t.subject_alt_name matches Some(v) ==> spec_names_permitted(subtrees, v@))
}

pub fn leaf_permitted_ok(subtrees: &Vec<GeneralNameValue>, t: &CertData) -> (r: bool)
    ensures
        r == spec_leaf_permitted_ok(subtrees@, *t),
{
    if t.subject.len() > 0 && dir_form_constrained(subtrees) && !dir_in_subtrees(
        subtrees,
        &t.subject,
    ) {
        return false;
    }
    match &t.subject_alt_name {
        Some(v) => names_permitted(subtrees, v),
        None => true,
    }
}

/// Some checked leaf name lies in an excluded subtree of `subtrees`.
pub open spec fn spec_leaf_excluded_hit(subtrees: Seq<GeneralNameValue>, t: CertData) -> bool {
    (t.subject@.len() > 0 && spec_dir_in_subtrees(subtrees, t.subject@)) || (
    t.subject_alt_name matches Some(v) && spec_names_excluded_hit(subtrees, v@))
}

pub fn leaf_excluded_hit(subtrees: &Vec<GeneralNameValue>, t: &CertData) -> (r: bool)
    ensures
        r == spec_leaf_excluded_hit(subtrees@, *t),
{
    if t.subject.len() > 0 && dir_in_subtrees(subtrees, &t.subject) {
        return true;
    }
    match &t.subject_alt_name {
        Some(v) => names_excluded_hit(subtrees, v),
        None => false,
    }
}

/// One accumulated name-constraints source accepts the leaf: its permitted
/// subtrees (when present) admit every constrained leaf name, and no leaf
/// name falls in an excluded subtree.
pub open spec fn spec_nc_source_ok(nc: NameConstraintsData, t: CertData) -> bool {
    (nc.permitted matches Some(p) ==> spec_leaf_permitted_ok(p@, t)) && (
    nc.excluded matches Some(e) ==> !spec_leaf_excluded_hit(e@, t))
}

pub fn nc_source_ok(nc: &NameConstraintsData, t: &CertData) -> (r: bool)
    ensures
        r == spec_nc_source_ok(*nc, *t),
{
    let perm_ok = match &nc.permitted {
        Some(p) => leaf_permitted_ok(p, t),
        None => true,
    };
    let excl_ok = match &nc.excluded {
        Some(e) => !leaf_excluded_hit(e, t),
        None => true,
    };
    perm_ok && excl_ok
}

/// A constraint subtree base the engine cannot evaluate.
pub open spec fn spec_gn_unsupported_constraint(g: GeneralNameValue) -> bool {
    match g {
        GeneralNameValue::IpAddress(_) => true,
        GeneralNameValue::Other => true,
        GeneralNameValue::EdiParty => true,
        _ => false,
    }
}

pub open spec fn spec_any_unsupported(subtrees: Seq<GeneralNameValue>) -> bool {
    exists|j: int| 0 <= j < subtrees.len() && spec_gn_unsupported_constraint(subtrees[j])
}

fn any_unsupported(subtrees: &Vec<GeneralNameValue>) -> (r: bool)
    ensures
        r == spec_any_unsupported(subtrees@),
{
    let mut j: usize = 0;
    while j < subtrees.len()
        invariant
            j <= subtrees@.len(),
            forall|k: int| 0 <= k < j ==> !spec_gn_unsupported_constraint(subtrees@[k]),
        decreases subtrees.len() - j,
    {
        match &subtrees[j] {
            GeneralNameValue::IpAddress(_) => { return true; },
            GeneralNameValue::Other => { return true; },
            GeneralNameValue::EdiParty => { return true; },
            _ => {},
        }
        j += 1;
    }
    false
}

/// Whether the certificate carries a name-constraints extension with a
/// permitted or excluded subtree of a form this engine cannot evaluate.
pub open spec fn spec_has_unsupported_name_constraint(c: CertData) -> bool {
    c.name_constraints matches Some(nc) && ((nc.permitted matches Some(p)
        && spec_any_unsupported(p@)) || (nc.excluded matches Some(e) && spec_any_unsupported(
        e@,
    )))
}

pub fn has_unsupported_name_constraint(c: &CertData) -> (r: bool)
    ensures
        r == spec_has_unsupported_name_constraint(*c),
{
    match &c.name_constraints {
        Some(nc) => {
            let in_perm = match &nc.permitted {
                Some(p) => any_unsupported(p),
                None => false,
            };
            let in_excl = match &nc.excluded {
                Some(e) => any_unsupported(e),
                None => false,
            };
            in_perm || in_excl
        },
        None => false,
    }
}

/// Whether a subject-alternative-name list holds an entry of a form the
/// peer-name check cannot evaluate: an IP address, an other-name or an
/// EDI party name.
pub open spec fn spec_has_unsupported_san(san: Seq<GeneralNameValue>) -> bool {
    spec_any_unsupported(san)
}

pub fn has_unsupported_san(san: &Vec<GeneralNameValue>) -> (r: bool)
    ensures
        r == spec_has_unsupported_san(san@),
{
    any_unsupported(san)
}


/// Expected-peer-name constraints, one optional list of base names per
/// name form. A form constrains when it holds at least one entry.
pub struct NameConstraintsSettings {
    pub user_principal_name: Option<Vec<Vec<u8>>>,
    pub rfc822_name: Option<Vec<Vec<u8>>>,
    pub dns_name: Option<Vec<Vec<u8>>>,
    pub directory_name: Option<Vec<Vec<u8>>>,
    pub uniform_resource_identifier: Option<Vec<Vec<u8>>>,
}

/// The byte strings of a list of byte vectors.
pub open spec fn deep(l: Seq<Vec<u8>>) -> Seq<Seq<u8>> {
    l.map_values(|v: Vec<u8>| v@)
}

/// The entries of one optional constraint list; an absent list is empty.
pub open spec fn names_of(o: Option<Vec<Vec<u8>>>) -> Seq<Seq<u8>> {
    match o {
        Option::None => Seq::empty(),
        Option::Some(l) => deep(l@),
    }
}

/// Adds one expected peer name to the constraint set under its form.
/// IP-address peer names are not evaluated and add nothing.
pub fn add_peer_name_to_ncs(pn: &PeerNameData, ncs: &mut NameConstraintsSettings)
    ensures
        pn.kind == PeerKind::Dns ==> names_of(final(ncs).dns_name) == names_of(
            old(ncs).dns_name,
        ).push(pn.value@) && final(ncs).dns_name is Some && final(ncs).rfc822_name == old(
            ncs,
        ).rfc822_name,
        pn.kind == PeerKind::Rfc822 ==> names_of(final(ncs).rfc822_name) == names_of(
            old(ncs).rfc822_name,
        ).push(pn.value@) && final(ncs).rfc822_name is Some && final(ncs).dns_name == old(
            ncs,
        ).dns_name,
        pn.kind == PeerKind::Ip ==> *final(ncs) == *old(ncs),
        final(ncs).user_principal_name == old(ncs).user_principal_name,
        final(ncs).directory_name == old(ncs).directory_name,
        final(ncs).uniform_resource_identifier == old(ncs).uniform_resource_identifier,
{
    match pn.kind {
        PeerKind::Rfc822 => {
            let mut l = match ncs.rfc822_name.take() {
                Some(l) => l,
                None => Vec::new(),
            };
            l.push(copy_bytes(&pn.value));
            proof {
                assert(deep(l@) =~= names_of(old(ncs).rfc822_name).push(pn.value@));
            }
            ncs.rfc822_name = Some(l);
        },
        PeerKind::Dns => {
            let mut l = match ncs.dns_name.take() {
                Some(l) => l,
                None => Vec::new(),
            };
            l.push(copy_bytes(&pn.value));
            proof {
                assert(deep(l@) =~= names_of(old(ncs).dns_name).push(pn.value@));
            }
            ncs.dns_name = Some(l);
        },
        PeerKind::Ip => {},
    }
}

/// The values of the expected peer names of form `k`, in input order.
pub open spec fn spec_peer_values(pns: Seq<PeerNameData>, k: PeerKind) -> Seq<Seq<u8>>
    decreases pns.len(),
{
    if pns.len() == 0 {
        Seq::empty()
    } else {
        spec_peer_values(pns.drop_last(), k) + (if pns.last().kind == k {
            seq![pns.last().value@]
        } else {
            Seq::empty()
        })
    }
}

/// Builds the expected-peer-name constraint set of a test vector, or
/// `None` when the vector names no expected peer.
pub fn convert_peer_names_to_name_constraints_settings(tc: &TestcaseData) -> (r: Option<
    NameConstraintsSettings,
>)
    ensures
        r is Some <==> tc.peer_names@.len() > 0,
        r matches Some(ncs) ==> names_of(ncs.dns_name) == spec_peer_values(
            tc.peer_names@,
            PeerKind::Dns,
        ) && names_of(ncs.rfc822_name) == spec_peer_values(tc.peer_names@, PeerKind::Rfc822)
            && (ncs.dns_name is Some <==> spec_peer_values(tc.peer_names@, PeerKind::Dns).len()
            > 0) && (ncs.rfc822_name is Some <==> spec_peer_values(
            tc.peer_names@,
            PeerKind::Rfc822,
        ).len() > 0) && ncs.user_principal_name is None && ncs.directory_name is None
            && ncs.uniform_resource_identifier is None,
{
    if tc.peer_names.len() == 0 {
        return None;
    }
    let mut ncs = NameConstraintsSettings {
        user_principal_name: None,
        rfc822_name: None,
        dns_name: None,
        directory_name: None,
        uniform_resource_identifier: None,
    };
    let mut i: usize = 0;
    while i < tc.peer_names.len()
        invariant
            i <= tc.peer_names@.len(),
            names_of(ncs.dns_name) == spec_peer_values(
                tc.peer_names@.subrange(0, i as int),
                PeerKind::Dns,
            ),
            names_of(ncs.rfc822_name) == spec_peer_values(
                tc.peer_names@.subrange(0, i as int),
                PeerKind::Rfc822,
            ),
            ncs.dns_name is Some <==> spec_peer_values(
                tc.peer_names@.subrange(0, i as int),
                PeerKind::Dns,
            ).len() > 0,
            ncs.rfc822_name is Some <==> spec_peer_values(
                tc.peer_names@.subrange(0, i as int),
                PeerKind::Rfc822,
            ).len() > 0,
            ncs.user_principal_name is None,
            ncs.directory_name is None,
            ncs.uniform_resource_identifier is None,
        decreases tc.peer_names.len() - i,
    {
        proof {
            assert(spec_peer_values(tc.peer_names@.subrange(0, 0), PeerKind::Dns)
                =~= Seq::<Seq<u8>>::empty());
        }
        add_peer_name_to_ncs(&tc.peer_names[i], &mut ncs);
        proof {
            let full = tc.peer_names@.subrange(0, i + 1 as int);
            assert(full.drop_last() =~= tc.peer_names@.subrange(0, i as int));
            assert(full.last() == tc.peer_names@[i as int]);
            lemma_peer_values_step(tc.peer_names@, i as int);
        }
        i += 1;
    }
    proof {
        assert(tc.peer_names@.subrange(0, tc.peer_names@.len() as int) =~= tc.peer_names@);
    }
    Some(ncs)
}

/// One step of the peer-value accumulation: appending a name of form `k`
/// extends that form's list by its value, and no other form's list.
proof fn lemma_peer_values_step(pns: Seq<PeerNameData>, i: int)
    requires
        0 <= i < pns.len(),
    ensures
        pns[i].kind == PeerKind::Dns ==> spec_peer_values(pns.subrange(0, i + 1), PeerKind::Dns)
            == spec_peer_values(pns.subrange(0, i), PeerKind::Dns).push(pns[i].value@),
        pns[i].kind == PeerKind::Dns ==> spec_peer_values(pns.subrange(0, i + 1), PeerKind::Rfc822)
            == spec_peer_values(pns.subrange(0, i), PeerKind::Rfc822),
        pns[i].kind == PeerKind::Rfc822 ==> spec_peer_values(pns.subrange(0, i + 1), PeerKind::Rfc822)
            == spec_peer_values(pns.subrange(0, i), PeerKind::Rfc822).push(pns[i].value@),
        pns[i].kind == PeerKind::Rfc822 ==> spec_peer_values(pns.subrange(0, i + 1), PeerKind::Dns)
            == spec_peer_values(pns.subrange(0, i), PeerKind::Dns),
        pns[i].kind == PeerKind::Ip ==> spec_peer_values(pns.subrange(0, i + 1), PeerKind::Dns)
            == spec_peer_values(pns.subrange(0, i), PeerKind::Dns) && spec_peer_values(
            pns.subrange(0, i + 1),
            PeerKind::Rfc822,
        ) == spec_peer_values(pns.subrange(0, i), PeerKind::Rfc822),
{
    let full = pns.subrange(0, i + 1);
    assert(full.drop_last() =~= pns.subrange(0, i));
    assert(full.last() == pns[i]);
    let prev_d = spec_peer_values(pns.subrange(0, i), PeerKind::Dns);
    let prev_r = spec_peer_values(pns.subrange(0, i), PeerKind::Rfc822);
    assert(spec_peer_values(full, PeerKind::Dns) == prev_d + (if pns[i].kind == PeerKind::Dns {
        seq![pns[i].value@]
    } else {
        Seq::<Seq<u8>>::empty()
    }));
    assert(spec_peer_values(full, PeerKind::Rfc822) == prev_r + (
    if pns[i].kind == PeerKind::Rfc822 {
        seq![pns[i].value@]
    } else {
        Seq::<Seq<u8>>::empty()
    }));
    assert(prev_d + seq![pns[i].value@] =~= prev_d.push(pns[i].value@));
    assert(prev_r + seq![pns[i].value@] =~= prev_r.push(pns[i].value@));
    assert(prev_d + Seq::<Seq<u8>>::empty() =~= prev_d);
    assert(prev_r + Seq::<Seq<u8>>::empty() =~= prev_r);
}

/// One subject-alternative name is acceptable under the expected-name
/// lists: a form with entries must admit the name; forms without entries,
/// and forms the check does not evaluate, constrain nothing.
pub open spec fn spec_peer_name_ok_lists(
    upn: Seq<Seq<u8>>,
    rfc: Seq<Seq<u8>>,
    dns: Seq<Seq<u8>>,
    dir: Seq<Seq<u8>>,
    uri: Seq<Seq<u8>>,
    g: GeneralNameValue,
) -> bool {
    match g {
        GeneralNameValue::Dns(n) => dns.len() > 0 ==> exists|j: int|
            0 <= j < dns.len() && spec_dns_match(#[trigger] dns[j], n@),
        GeneralNameValue::Rfc822(n) => rfc.len() > 0 ==> exists|j: int|
            0 <= j < rfc.len() && spec_rfc822_match(#[trigger] rfc[j], n@),
        GeneralNameValue::Uri(n) => uri.len() > 0 ==> exists|j: int|
            0 <= j < uri.len() && spec_dns_match(#[trigger] uri[j], spec_uri_host(n@)),
        GeneralNameValue::Directory(n) => dir.len() > 0 ==> exists|j: int|
            0 <= j < dir.len() && spec_dir_match(#[trigger] dir[j], n@),
        GeneralNameValue::UserPrincipal(n) => upn.len() > 0 ==> exists|j: int|
            0 <= j < upn.len() && #[trigger] upn[j] == n@,
        _ => true,
    }
}

pub open spec fn spec_san_within_lists(
    upn: Seq<Seq<u8>>,
    rfc: Seq<Seq<u8>>,
    dns: Seq<Seq<u8>>,
    dir: Seq<Seq<u8>>,
    uri: Seq<Seq<u8>>,
    san: Seq<GeneralNameValue>,
) -> bool {
    forall|i: int|
        0 <= i < san.len() ==> spec_peer_name_ok_lists(upn, rfc, dns, dir, uri, #[trigger] san[i])
}

/// The whole subject-alternative-name list is acceptable under `ncs`.
pub open spec fn spec_san_within(ncs: NameConstraintsSettings, san: Seq<GeneralNameValue>) -> bool {
    spec_san_within_lists(
        names_of(ncs.user_principal_name),
        names_of(ncs.rfc822_name),
        names_of(ncs.dns_name),
        names_of(ncs.directory_name),
        names_of(ncs.uniform_resource_identifier),
        san,
    )
}

fn any_dns_match(list: &Vec<Vec<u8>>, n: &Vec<u8>) -> (r: bool)
    ensures
        r == exists|j: int| 0 <= j < list@.len() && spec_dns_match(#[trigger] deep(list@)[j], n@),
{
    let mut j: usize = 0;
    while j < list.len()
        invariant
            j <= list@.len(),
            forall|k: int| 0 <= k < j ==> !spec_dns_match(#[trigger] deep(list@)[k], n@),
        decreases list.len() - j,
    {
        if dns_match(&list[j], n) {
            assert(deep(list@)[j as int] == list@[j as int]@);
            return true;
        }
        assert(deep(list@)[j as int] == list@[j as int]@);
        j += 1;
    }
    false
}

fn any_rfc822_match(list: &Vec<Vec<u8>>, n: &Vec<u8>) -> (r: bool)
    ensures
        r == exists|j: int|
            0 <= j < list@.len() && spec_rfc822_match(#[trigger] deep(list@)[j], n@),
{
    let mut j: usize = 0;
    while j < list.len()
        invariant
            j <= list@.len(),
            forall|k: int| 0 <= k < j ==> !spec_rfc822_match(#[trigger] deep(list@)[k], n@),
        decreases list.len() - j,
    {
        if rfc822_match(&list[j], n) {
            assert(deep(list@)[j as int] == list@[j as int]@);
            return true;
        }
        assert(deep(list@)[j as int] == list@[j as int]@);
        j += 1;
    }
    false
}

fn any_dir_match(list: &Vec<Vec<u8>>, n: &Vec<u8>) -> (r: bool)
    ensures
        r == exists|j: int| 0 <= j < list@.len() && spec_dir_match(#[trigger] deep(list@)[j], n@),
{
    let mut j: usize = 0;
    while j < list.len()
        invariant
            j <= list@.len(),
            forall|k: int| 0 <= k < j ==> !spec_dir_match(#[trigger] deep(list@)[k], n@),
        decreases list.len() - j,
    {
        if dir_match(&list[j], n) {
            assert(deep(list@)[j as int] == list@[j as int]@);
            return true;
        }
        assert(deep(list@)[j as int] == list@[j as int]@);
        j += 1;
    }
    false
}

fn any_eq_match(list: &Vec<Vec<u8>>, n: &Vec<u8>) -> (r: bool)
    ensures
        r == exists|j: int| 0 <= j < list@.len() && #[trigger] deep(list@)[j] == n@,
{
    let mut j: usize = 0;
    while j < list.len()
        invariant
            j <= list@.len(),
            forall|k: int| 0 <= k < j ==> #[trigger] deep(list@)[k] != n@,
        decreases list.len() - j,
    {
        if bytes_eq(&list[j], n) {
            assert(deep(list@)[j as int] == list@[j as int]@);
            return true;
        }
        assert(deep(list@)[j as int] == list@[j as int]@);
        j += 1;
    }
    false
}

fn peer_name_ok(ncs: &NameConstraintsSettings, g: &GeneralNameValue) -> (r: bool)
    ensures
        r == spec_peer_name_ok_lists(
            names_of(ncs.user_principal_name),
            names_of(ncs.rfc822_name),
            names_of(ncs.dns_name),
            names_of(ncs.directory_name),
            names_of(ncs.uniform_resource_identifier),
            *g,
        ),
{
    match g {
        GeneralNameValue::Dns(n) => match &ncs.dns_name {
            Some(l) => l.len() == 0 || any_dns_match(l, n),
            None => true,
        },
        GeneralNameValue::Rfc822(n) => match &ncs.rfc822_name {
            Some(l) => l.len() == 0 || any_rfc822_match(l, n),
            None => true,
        },
        GeneralNameValue::Uri(n) => match &ncs.uniform_resource_identifier {
            Some(l) => l.len() == 0 || any_dns_match(l, &uri_host(n)),
            None => true,
        },
        GeneralNameValue::Directory(n) => match &ncs.directory_name {
            Some(l) => l.len() == 0 || any_dir_match(l, n),
            None => true,
        },
        GeneralNameValue::UserPrincipal(n) => match &ncs.user_principal_name {
            Some(l) => l.len() == 0 || any_eq_match(l, n),
            None => true,
        },
        _ => true,
    }
}

/// Tests every subject-alternative name against the expected-peer-name
/// constraint set.
pub fn san_within_permitted_subtrees(ncs: &NameConstraintsSettings, san: &Vec<GeneralNameValue>) -> (r:
    bool)
    ensures
        r == spec_san_within(*ncs, san@),
{
    let mut i: usize = 0;
    while i < san.len()
        invariant
            i <= san@.len(),
            forall|k: int|
                0 <= k < i ==> spec_peer_name_ok_lists(
                    names_of(ncs.user_principal_name),
                    names_of(ncs.rfc822_name),
                    names_of(ncs.dns_name),
                    names_of(ncs.directory_name),
                    names_of(ncs.uniform_resource_identifier),
                    #[trigger] san@[k],
                ),
        decreases san.len() - i,
    {
        if !peer_name_ok(ncs, &san[i]) {
            return false;
        }
        i += 1;
    }
    true
}

} // verus!

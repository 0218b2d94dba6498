//! The path-graph builder: from a store of trust anchors and untrusted
//! intermediates, enumerate every acyclic candidate certification path
//! from a target certificate to some trust anchor. Enumeration order is a
//! function of store order alone, and exploration is bounded by the number
//! of distinct certificates in the store, so cross-signed (cyclic) inputs
//! terminate and cyclic paths are never produced.
use vstd::prelude::*;
use crate::bytes::bytes_eq;
use crate::model::CertData;

verus! {

/// One candidate certification path: indices into the intermediate store,
/// ordered from the target's issuer upward, then the index of the trust
/// anchor whose subject matches the last issuer.
pub struct CandidatePath {
    pub intermediates: Vec<usize>,
    pub anchor: usize,
}

/// The mathematical image of a candidate path.
pub ghost struct PathImage {
    pub inters: Seq<usize>,
    pub anchor: usize,
}

impl View for CandidatePath {
    type V = PathImage;

    open spec fn view(&self) -> PathImage {
        PathImage { inters: self.intermediates@, anchor: self.anchor }
    }
}

pub open spec fn path_views(s: Seq<CandidatePath>) -> Seq<PathImage> {
    s.map_values(|p: CandidatePath| p@)
}

/// Paths that terminate right here: anchors from position `j` on whose
/// subject is `issuer`, each closing the chain `chain`.
pub open spec fn spec_anchor_paths(
    anchors: Seq<CertData>,
    issuer: Seq<u8>,
    chain: Seq<usize>,
    j: int,
) -> Seq<PathImage>
    decreases anchors.len() - j,
{
    if j < 0 || j >= anchors.len() {
        Seq::empty()
    } else {
        (if anchors[j].subject@ == issuer {
            seq![PathImage { inters: chain, anchor: j as usize }]
        } else {
            Seq::empty()
        }) + spec_anchor_paths(anchors, issuer, chain, j + 1)
    }
}

/// Extensions through intermediates from position `j` on whose subject is
/// `issuer` and which the chain does not already hold.
pub open spec fn spec_cert_extensions(
    certs: Seq<CertData>,
    anchors: Seq<CertData>,
    issuer: Seq<u8>,
    chain: Seq<usize>,
    fuel: nat,
    j: int,
) -> Seq<PathImage>
    decreases fuel, certs.len() - j,
{
    if j < 0 || j >= certs.len() || fuel == 0 {
        Seq::empty()
    } else {
        (if certs[j].subject@ == issuer && !chain.contains(j as usize) {
            spec_paths_from(certs, anchors, certs[j].issuer@, chain.push(j as usize), (fuel
                - 1) as nat)
        } else {
            Seq::empty()
        }) + spec_cert_extensions(certs, anchors, issuer, chain, fuel, j + 1)
    }
}

/// All candidate paths whose chain so far is `chain` and whose next
/// certificate must carry subject `issuer`: those closed at once by an
/// anchor, then those through one more intermediate.
pub open spec fn spec_paths_from(
    certs: Seq<CertData>,
    anchors: Seq<CertData>,
    issuer: Seq<u8>,
    chain: Seq<usize>,
    fuel: nat,
) -> Seq<PathImage>
    decreases fuel, certs.len() + 1,
{
    spec_anchor_paths(anchors, issuer, chain, 0) + spec_cert_extensions(
        certs,
        anchors,
        issuer,
        chain,
        fuel,
        0,
    )
}

/// Every candidate path from the target to some trust anchor, bounded in
/// length by the number of intermediates in the store.
pub open spec fn spec_paths_for_target(
    trusted: Seq<CertData>,
    intermediates: Seq<CertData>,
    target: CertData,
) -> Seq<PathImage> {
    spec_paths_from(intermediates, trusted, target.issuer@, Seq::empty(), intermediates.len())
}

fn copy_indices(v: &Vec<usize>) -> (r: Vec<usize>)
    ensures
        r@ == v@,
{
    let mut out: Vec<usize> = Vec::new();
    let mut i: usize = 0;
    while i < v.len()
        invariant
            i <= v@.len(),
            out@ == v@.subrange(0, i as int),
        decreases v.len() - i,
    {
        out.push(v[i]);
        assert(out@ =~= v@.subrange(0, i + 1 as int));
        i += 1;
    }
    assert(out@ =~= v@);
    out
}

fn indices_contains(v: &Vec<usize>, x: usize) -> (r: bool)
    ensures
        r == v@.contains(x),
{
    let mut i: usize = 0;
    while i < v.len()
        invariant
            i <= v@.len(),
            forall|k: int| 0 <= k < i ==> v@[k] != x,
        decreases v.len() - i,
    {
        if v[i] == x {
            assert(v@[i as int] == x);
            return true;
        }
        i += 1;
    }
    false
}

/// Recursive worker: appends to `out` exactly the paths that
/// `spec_paths_from` names, leaving `chain` as it found it.
fn paths_from(
    certs: &Vec<CertData>,
    anchors: &Vec<CertData>,
    issuer: &Vec<u8>,
    chain: &mut Vec<usize>,
    fuel: usize,
    out: &mut Vec<CandidatePath>,
)
    ensures
        final(chain)@ == old(chain)@,
        path_views(final(out)@) == path_views(old(out)@) + spec_paths_from(
            certs@,
            anchors@,
            issuer@,
            old(chain)@,
            fuel as nat,
        ),
    decreases fuel,
{
    let ghost base = path_views(out@);
    let ghost chain0 = chain@;
    let mut j: usize = 0;
    while j < anchors.len()
        invariant
            j <= anchors@.len(),
            chain@ == chain0,
            path_views(out@) + spec_anchor_paths(anchors@, issuer@, chain0, j as int) == base
                + spec_anchor_paths(anchors@, issuer@, chain0, 0),
        decreases anchors.len() - j,
    {
        if bytes_eq(&anchors[j].subject, issuer) {
            let p = CandidatePath { intermediates: copy_indices(chain), anchor: j };
            proof {
                assert(p@ == PathImage { inters: chain0, anchor: j });
            }
            out.push(p);
            proof {
                assert(path_views(out@) =~= path_views(out@.drop_last()).push(
                    PathImage { inters: chain0, anchor: j },
                ));
            }
        }
        proof {
            let aj = spec_anchor_paths(anchors@, issuer@, chain0, j as int);
            let ajn = spec_anchor_paths(anchors@, issuer@, chain0, j + 1 as int);
            if anchors@[j as int].subject@ == issuer@ {
                assert(aj =~= seq![PathImage { inters: chain0, anchor: j }] + ajn);
                assert(path_views(out@) + ajn =~= base + spec_anchor_paths(
                    anchors@,
                    issuer@,
                    chain0,
                    0,
                ));
            } else {
                assert(aj =~= ajn);
            }
        }
        j += 1;
    }
    proof {
        assert(spec_anchor_paths(anchors@, issuer@, chain0, anchors@.len() as int)
            =~= Seq::<PathImage>::empty());
        assert(path_views(out@) =~= base + spec_anchor_paths(anchors@, issuer@, chain0, 0));
    }
    if fuel == 0 {
        proof {
            assert(spec_cert_extensions(certs@, anchors@, issuer@, chain0, fuel as nat, 0)
                =~= Seq::<PathImage>::empty());
            assert(path_views(out@) =~= base + spec_paths_from(
                certs@,
                anchors@,
                issuer@,
                chain0,
                fuel as nat,
            ));
        }
        return;
    }
    let ghost base2 = path_views(out@);
    let mut k: usize = 0;
    while k < certs.len()
        invariant
            k <= certs@.len(),
            fuel >= 1,
            chain@ == chain0,
            path_views(out@) + spec_cert_extensions(
                certs@,
                anchors@,
                issuer@,
                chain0,
                fuel as nat,
                k as int,
            ) == base2 + spec_cert_extensions(certs@, anchors@, issuer@, chain0, fuel as nat, 0),
        decreases certs.len() - k,
    {
        if bytes_eq(&certs[k].subject, issuer) && !indices_contains(chain, k) {
            chain.push(k);
            let ghost mid = path_views(out@);
            paths_from(certs, anchors, &certs[k].issuer, chain, fuel - 1, out);
            chain.pop();
            proof {
                assert(chain@ =~= chain0);
                let added_part = spec_paths_from(
                    certs@,
                    anchors@,
                    certs@[k as int].issuer@,
                    chain0.push(k),
                    (fuel - 1) as nat,
                );
                let ek = spec_cert_extensions(
                    certs@,
                    anchors@,
                    issuer@,
                    chain0,
                    fuel as nat,
                    k as int,
                );
                let ekn = spec_cert_extensions(
                    certs@,
                    anchors@,
                    issuer@,
                    chain0,
                    fuel as nat,
                    k + 1 as int,
                );
                assert(ek =~= added_part + ekn);
                assert(path_views(out@) + ekn =~= mid + added_part + ekn);
                assert((mid + added_part) + ekn =~= mid + (added_part + ekn));
            }
        } else {
            proof {
                let ek = spec_cert_extensions(
                    certs@,
                    anchors@,
                    issuer@,
                    chain0,
                    fuel as nat,
                    k as int,
                );
                let ekn = spec_cert_extensions(
                    certs@,
                    anchors@,
                    issuer@,
                    chain0,
                    fuel as nat,
                    k + 1 as int,
                );
                assert(ek =~= ekn);
            }
        }
        k += 1;
    }
    proof {
        assert(spec_cert_extensions(
            certs@,
            anchors@,
            issuer@,
            chain0,
            fuel as nat,
            certs@.len() as int,
        ) =~= Seq::<PathImage>::empty());
        assert(path_views(out@) =~= base2 + spec_cert_extensions(
            certs@,
            anchors@,
            issuer@,
            chain0,
            fuel as nat,
            0,
        ));
        assert(path_views(out@) =~= base + spec_paths_from(
            certs@,
            anchors@,
            issuer@,
            chain0,
            fuel as nat,
        ));
    }
}

/// The certificate store of one evaluation: the trust anchors and the
/// untrusted intermediates supplied by a test vector.
pub struct CertStore {
    pub trusted: Vec<CertData>,
    pub intermediates: Vec<CertData>,
}

impl CertStore {
    pub fn new() -> (r: CertStore)
        ensures
            r.trusted@.len() == 0,
            r.intermediates@.len() == 0,
    {
        CertStore { trusted: Vec::new(), intermediates: Vec::new() }
    }

    pub fn add_trust_anchor(&mut self, c: CertData)
        ensures
            final(self).trusted@ == old(self).trusted@.push(c),
            final(self).intermediates@ == old(self).intermediates@,
    {
        self.trusted.push(c);
    }

    pub fn add_intermediate(&mut self, c: CertData)
        ensures
            final(self).intermediates@ == old(self).intermediates@.push(c),
            final(self).trusted@ == old(self).trusted@,
    {
        self.intermediates.push(c);
    }

    /// Enumerates every candidate path from `target` to a trust anchor.
    pub fn get_paths_for_target(&self, target: &CertData) -> (r: Vec<CandidatePath>)
        ensures
            path_views(r@) == spec_paths_for_target(self.trusted@, self.intermediates@, *target),
    {
        find_candidate_paths(&self.trusted, &self.intermediates, target)
    }
}

/// Enumerates every candidate path from `target` to a trust anchor of
/// `trusted`, through intermediates of `intermediates`.
pub fn find_candidate_paths(
    trusted: &Vec<CertData>,
    intermediates: &Vec<CertData>,
    target: &CertData,
) -> (r: Vec<CandidatePath>)
    ensures
        path_views(r@) == spec_paths_for_target(trusted@, intermediates@, *target),
{
    let mut chain: Vec<usize> = Vec::new();
    let mut out: Vec<CandidatePath> = Vec::new();
    proof {
        assert(path_views(out@) =~= Seq::<PathImage>::empty());
    }
    paths_from(
        intermediates,
        trusted,
        &target.issuer,
        &mut chain,
        intermediates.len(),
        &mut out,
    );
    proof {
        assert(path_views(out@) =~= spec_paths_for_target(trusted@, intermediates@, *target));
    }
    out
}


/// Well-formedness of every enumerated path relative to the chain prefix
/// and fuel it was enumerated under: its anchor index lies in the anchor
/// store, its intermediate indices lie in the intermediate store, it
/// repeats no intermediate, it extends the chain it grew from, and its
/// length is bounded by that chain plus the remaining fuel.
pub open spec fn spec_path_wf_from(
    certs: Seq<CertData>,
    anchors: Seq<CertData>,
    chain: Seq<usize>,
    fuel: nat,
    p: PathImage,
) -> bool {
    (p.anchor as int) < anchors.len() && (forall|q: int|
        0 <= q < p.inters.len() ==> (#[trigger] p.inters[q] as int) < certs.len())
        && p.inters.no_duplicates() && p.inters.len() <= chain.len() + fuel
        && chain.is_prefix_of(p.inters)
}

proof fn lemma_anchor_paths_wf(
    anchors: Seq<CertData>,
    issuer: Seq<u8>,
    chain: Seq<usize>,
    j: int,
)
    ensures
        forall|pi: int|
            0 <= pi < spec_anchor_paths(anchors, issuer, chain, j).len() ==> {
                let p = #[trigger] spec_anchor_paths(anchors, issuer, chain, j)[pi];
                p.inters == chain && (p.anchor as int) < anchors.len()
            },
    decreases anchors.len() - j,
{
    if j < 0 || j >= anchors.len() {
    } else {
        lemma_anchor_paths_wf(anchors, issuer, chain, j + 1);
        let head = if anchors[j].subject@ == issuer {
            seq![PathImage { inters: chain, anchor: j as usize }]
        } else {
            Seq::<PathImage>::empty()
        };
        let rest = spec_anchor_paths(anchors, issuer, chain, j + 1);
        assert forall|pi: int|
            0 <= pi < spec_anchor_paths(anchors, issuer, chain, j).len() implies {
            let p = #[trigger] spec_anchor_paths(anchors, issuer, chain, j)[pi];
            p.inters == chain && (p.anchor as int) < anchors.len()
        } by {
            if pi < head.len() {
                assert(spec_anchor_paths(anchors, issuer, chain, j)[pi] == head[pi]);
            } else {
                assert(spec_anchor_paths(anchors, issuer, chain, j)[pi] == rest[pi - head.len()]);
            }
        }
    }
}

proof fn lemma_paths_from_wf(
    certs: Seq<CertData>,
    anchors: Seq<CertData>,
    issuer: Seq<u8>,
    chain: Seq<usize>,
    fuel: nat,
)
    requires
        forall|q: int| 0 <= q < chain.len() ==> (#[trigger] chain[q] as int) < certs.len(),
        chain.no_duplicates(),
    ensures
        forall|pi: int|
            0 <= pi < spec_paths_from(certs, anchors, issuer, chain, fuel).len()
                ==> spec_path_wf_from(
                certs,
                anchors,
                chain,
                fuel,
                #[trigger] spec_paths_from(certs, anchors, issuer, chain, fuel)[pi],
            ),
    decreases fuel, certs.len() + 1,
{
    lemma_anchor_paths_wf(anchors, issuer, chain, 0);
    lemma_cert_extensions_wf(certs, anchors, issuer, chain, fuel, 0);
    let ap = spec_anchor_paths(anchors, issuer, chain, 0);
    let ep = spec_cert_extensions(certs, anchors, issuer, chain, fuel, 0);
    assert(chain.is_prefix_of(chain)) by {
        assert(chain.subrange(0, chain.len() as int) =~= chain);
    }
    assert forall|pi: int|
        0 <= pi < spec_paths_from(certs, anchors, issuer, chain, fuel).len() implies
        spec_path_wf_from(
            certs,
            anchors,
            chain,
            fuel,
            spec_paths_from(certs, anchors, issuer, chain, fuel)[pi],
        ) by {
        if pi < ap.len() {
            assert(spec_paths_from(certs, anchors, issuer, chain, fuel)[pi] == ap[pi]);
        } else {
            assert(spec_paths_from(certs, anchors, issuer, chain, fuel)[pi] == ep[pi - ap.len()]);
        }
    }
}

proof fn lemma_cert_extensions_wf(
    certs: Seq<CertData>,
    anchors: Seq<CertData>,
    issuer: Seq<u8>,
    chain: Seq<usize>,
    fuel: nat,
    j: int,
)
    requires
        forall|q: int| 0 <= q < chain.len() ==> (#[trigger] chain[q] as int) < certs.len(),
        chain.no_duplicates(),
    ensures
        forall|pi: int|
            0 <= pi < spec_cert_extensions(certs, anchors, issuer, chain, fuel, j).len()
                ==> spec_path_wf_from(
                certs,
                anchors,
                chain,
                fuel,
                #[trigger] spec_cert_extensions(certs, anchors, issuer, chain, fuel, j)[pi],
            ),
    decreases fuel, certs.len() - j,
{
    if j < 0 || j >= certs.len() || fuel == 0 {
    } else {
        lemma_cert_extensions_wf(certs, anchors, issuer, chain, fuel, j + 1);
        let head = if certs[j].subject@ == issuer && !chain.contains(j as usize) {
            spec_paths_from(certs, anchors, certs[j].issuer@, chain.push(j as usize), (fuel
                - 1) as nat)
        } else {
            Seq::<PathImage>::empty()
        };
        let rest = spec_cert_extensions(certs, anchors, issuer, chain, fuel, j + 1);
        if certs[j].subject@ == issuer && !chain.contains(j as usize) {
            let longer = chain.push(j as usize);
            assert(longer.no_duplicates()) by {
                assert forall|a: int, b: int| 0 <= a < b < longer.len() implies longer[a]
                    != longer[b] by {
                    if b == longer.len() - 1 {
                        assert(!chain.contains(j as usize));
                        assert(longer[a] == chain[a]);
                    }
                }
            }
            lemma_paths_from_wf(certs, anchors, certs[j].issuer@, longer, (fuel - 1) as nat);
            assert forall|pi: int| 0 <= pi < head.len() implies spec_path_wf_from(
                certs,
                anchors,
                chain,
                fuel,
                head[pi],
            ) by {
                let p = head[pi];
                assert(spec_path_wf_from(certs, anchors, longer, (fuel - 1) as nat, p));
                assert(longer.is_prefix_of(p.inters));
                assert(chain.is_prefix_of(p.inters)) by {
                    assert(p.inters.subrange(0, longer.len() as int) == longer);
                    assert forall|q: int| 0 <= q < chain.len() implies p.inters[q] == chain[q] by {
                        assert(p.inters.subrange(0, longer.len() as int)[q] == longer[q]);
                    }
                    assert(p.inters.subrange(0, chain.len() as int) =~= chain);
                }
            }
        }
        assert forall|pi: int|
            0 <= pi < spec_cert_extensions(certs, anchors, issuer, chain, fuel, j).len() implies
            spec_path_wf_from(
                certs,
                anchors,
                chain,
                fuel,
                spec_cert_extensions(certs, anchors, issuer, chain, fuel, j)[pi],
            ) by {
            if pi < head.len() {
                assert(spec_cert_extensions(certs, anchors, issuer, chain, fuel, j)[pi]
                    == head[pi]);
            } else {
                assert(spec_cert_extensions(certs, anchors, issuer, chain, fuel, j)[pi] == rest[pi
                    - head.len()]);
            }
        }
    }
}

/// Every path the builder enumerates for a target is well formed: indices
/// in range, no repeated intermediate, and length bounded by the store
/// size. In particular, on a cyclic (cross-signed) store the enumeration
/// is finite and no enumerated path traverses a cycle.
pub proof fn lemma_paths_for_target_wf(
    trusted: Seq<CertData>,
    intermediates: Seq<CertData>,
    target: CertData,
)
    ensures
        forall|pi: int|
            0 <= pi < spec_paths_for_target(trusted, intermediates, target).len() ==> {
                let p = #[trigger] spec_paths_for_target(trusted, intermediates, target)[pi];
                (p.anchor as int) < trusted.len() && (forall|q: int|
                    0 <= q < p.inters.len() ==> (#[trigger] p.inters[q] as int)
                        < intermediates.len()) && p.inters.no_duplicates() && p.inters.len()
                    <= intermediates.len()
            },
{
    lemma_paths_from_wf(
        intermediates,
        trusted,
        target.issuer@,
        Seq::empty(),
        intermediates.len(),
    );
}

} // verus!

//! The DKG session context: parameters, the validator set and the shared
//! evaluation domain.
use vstd::prelude::*;

use crate::curve::{domain_elements_of, domain_new, domain_size_of, Domain, G2Affine};
use crate::pvss::{PubliclyVerifiableParams, PubliclyVerifiableSS, Unaggregated};
use crate::{Error, Result};

verus! {

/// The numeric parameters of a DKG session: an epoch tag, the security
/// threshold `t` and the number of shares `n`.
#[derive(Clone, Copy)]
pub struct DkgParams {
    tau: u32,
    security_threshold: u32,
    shares_num: u32,
}

impl DkgParams {
    /// The parameters are well formed: `1 <= t <= n`.
    pub open spec fn wf(&self) -> bool {
        0 < self.spec_security_threshold() <= self.spec_shares_num()
    }

    pub closed spec fn spec_tau(&self) -> u32 {
        self.tau
    }

    pub closed spec fn spec_security_threshold(&self) -> u32 {
        self.security_threshold
    }

    pub closed spec fn spec_shares_num(&self) -> u32 {
        self.shares_num
    }

    /// Builds the session parameters, rejecting a threshold of zero or one
    /// above the number of shares.
    pub fn new(tau: u32, security_threshold: u32, shares_num: u32) -> (r: Result<DkgParams>)
        ensures
            r is Ok <==> 0 < security_threshold <= shares_num,
            r matches Ok(p) ==> p.wf() && p.spec_tau() == tau
                && p.spec_security_threshold() == security_threshold
                && p.spec_shares_num() == shares_num,
            r matches Err(e) ==> e == Error::InvalidThreshold,
    {
        if security_threshold == 0 || shares_num < security_threshold {
            Err(Error::InvalidThreshold)
        } else {
            Ok(DkgParams { tau, security_threshold, shares_num })
        }
    }

    pub fn tau(&self) -> (r: u32)
        ensures
            r == self.spec_tau(),
    {
        self.tau
    }

    pub fn security_threshold(&self) -> (r: u32)
        ensures
            r == self.spec_security_threshold(),
    {
        self.security_threshold
    }

    pub fn shares_num(&self) -> (r: u32)
        ensures
            r == self.spec_shares_num(),
    {
        self.shares_num
    }
}

/// A member of the validator set: its canonical share index and the G2 key
/// under which its share evaluations are encrypted.
#[derive(Clone, Copy)]
pub struct Validator {
    pub share_index: u32,
    pub encryption_key: G2Affine,
}

/// No two validators claim the same share index.
pub open spec fn all_indices_unique(vs: Seq<Validator>) -> bool {
    forall|i: int, j: int|
        #![trigger vs[i].share_index, vs[j].share_index]
        0 <= i < j < vs.len() ==> vs[i].share_index != vs[j].share_index
}

/// Position `j` repeats a share index seen at an earlier position.
pub open spec fn dup_at(vs: Seq<Validator>, j: int) -> bool {
    exists|i: int| 0 <= i < j && #[trigger] vs[i].share_index == vs[j].share_index
}

/// Validator `i` holds share index `i`: the set is in canonical order.
pub open spec fn canonical_indices(vs: Seq<Validator>) -> bool {
    forall|i: int| 0 <= i < vs.len() ==> #[trigger] vs[i].share_index == i as u32
}

/// Rejects a validator set in which two validators claim the same share
/// index, naming the first repeated index.
pub fn assert_no_share_duplicates(validators: &Vec<Validator>) -> (r: Result<()>)
    ensures
        r is Ok <==> all_indices_unique(validators@),
        r matches Err(e) ==> exists|j: int|
            {
                &&& 0 <= j < validators@.len()
                &&& #[trigger] dup_at(validators@, j)
                &&& forall|k: int| 0 <= k < j ==> !#[trigger] dup_at(validators@, k)
                &&& e == Error::DuplicatedShareIndex(validators@[j].share_index)
            },
{
    let n = validators.len();
    for j in 0..n
        invariant
            n == validators@.len(),
            forall|k: int| 0 <= k < j ==> !#[trigger] dup_at(validators@, k),
    {
        for i in 0..j
            invariant
                j < n == validators@.len(),
                forall|k: int| 0 <= k < j ==> !#[trigger] dup_at(validators@, k),
                forall|k: int|
                    0 <= k < i ==> validators@[k].share_index != validators@[j as int].share_index,
        {
            if validators[i].share_index == validators[j].share_index {
                assert(dup_at(validators@, j as int));
                return Err(Error::DuplicatedShareIndex(validators[j].share_index));
            }
        }
        assert(!dup_at(validators@, j as int));
    }
    assert(all_indices_unique(validators@)) by {
        assert forall|i: int, j: int|
            #![trigger validators@[i].share_index, validators@[j].share_index]
            0 <= i < j < validators@.len() implies validators@[i].share_index != validators@[
            j
        ].share_index by {
            assert(!dup_at(validators@, j));
        }
    }
    Ok(())
}

/// A canonically ordered validator set has unique share indices.
pub proof fn lemma_canonical_implies_unique(vs: Seq<Validator>)
    requires
        canonical_indices(vs),
        vs.len() <= 0xffff_ffff,
    ensures
        all_indices_unique(vs),
{
    assert forall|i: int, j: int|
        #![trigger vs[i].share_index, vs[j].share_index]
        0 <= i < j < vs.len() implies vs[i].share_index != vs[j].share_index by {
        assert(vs[i].share_index == i as u32);
        assert(vs[j].share_index == j as u32);
    }
}

/// A DKG session: the parameters, the group generators, the validator set in
/// canonical order, the shared evaluation domain, this node's identity, and
/// the transcripts received so far.
#[derive(Clone)]
pub struct PubliclyVerifiableDkg {
    pub dkg_params: DkgParams,
    pub pvss_params: PubliclyVerifiableParams,
    pub validators: Vec<Validator>,
    pub domain: Domain,
    pub me: Validator,
    pub vss: Vec<PubliclyVerifiableSS<Unaggregated>>,
}

impl PubliclyVerifiableDkg {
    /// The session is well formed: valid parameters, one validator per share
    /// in canonical order, a domain that covers every share index, and no
    /// received transcript without a commitment.
    pub open spec fn wf(&self) -> bool {
        &&& self.dkg_params.wf()
        &&& self.validators@.len() == self.dkg_params.spec_shares_num() as int
        &&& canonical_indices(self.validators@)
        &&& self.dkg_params.spec_shares_num() as int <= domain_size_of(self.domain) as int
        &&& domain_elements_of(self.domain).len() == domain_size_of(self.domain) as int
        &&& forall|j: int| 0 <= j < self.vss@.len() ==> #[trigger] self.vss@[j].coeffs@.len() > 0
    }

    /// Builds a session over the given validator set.  The set must list
    /// each share index exactly once, in order: a repeated index is refused
    /// with `DuplicatedShareIndex`, an index out of place with
    /// `InvalidShareIndex`, and a set whose size differs from the declared
    /// number of shares with `InsufficientValidators`.
    pub fn new(
        validators: &Vec<Validator>,
        dkg_params: &DkgParams,
        me: &Validator,
    ) -> (r: Result<PubliclyVerifiableDkg>)
        requires
            dkg_params.wf(),
        ensures
            r is Ok <==> all_indices_unique(validators@) && canonical_indices(validators@)
                && validators@.len() == dkg_params.spec_shares_num() as int,
            r matches Ok(d) ==> {
                &&& d.wf()
                &&& d.dkg_params == *dkg_params
                &&& d.validators@ == validators@
                &&& d.me == *me
                &&& d.vss@.len() == 0
            },
            r matches Err(e) ==> !all_indices_unique(validators@) || !canonical_indices(
                validators@,
            ) || validators@.len() != dkg_params.spec_shares_num() as int,
            !all_indices_unique(validators@) ==> (r matches Err(e) && exists|j: int|
                {
                    &&& 0 <= j < validators@.len()
                    &&& #[trigger] dup_at(validators@, j)
                    &&& e == Error::DuplicatedShareIndex(validators@[j].share_index)
                }),
            all_indices_unique(validators@) && !canonical_indices(validators@) ==> (r matches Err(
                e,
            ) && exists|i: int|
                {
                    &&& 0 <= i < validators@.len()
                    &&& #[trigger] validators@[i].share_index != i as u32
                    &&& e == Error::InvalidShareIndex(validators@[i].share_index)
                }),
            all_indices_unique(validators@) && canonical_indices(validators@) && validators@.len()
                != dkg_params.spec_shares_num() as int ==> r == Err::<
                PubliclyVerifiableDkg,
                Error,
            >(Error::InsufficientValidators(
                validators@.len() as u32,
                dkg_params.spec_shares_num(),
            )),
    {
        match assert_no_share_duplicates(validators) {
            Ok(_) => {},
            Err(e) => {
                return Err(e);
            },
        }
        let n = validators.len();
        for i in 0..n
            invariant
                n == validators@.len(),
                all_indices_unique(validators@),
                forall|k: int| 0 <= k < i ==> #[trigger] validators@[k].share_index == k as u32,
        {
            if validators[i].share_index != i as u32 {
                return Err(Error::InvalidShareIndex(validators[i].share_index));
            }
        }
        let shares_num = dkg_params.shares_num();
        if n != shares_num as usize {
            return Err(Error::InsufficientValidators(n as u32, shares_num));
        }
        let domain = domain_new(shares_num as usize);
        Ok(
            PubliclyVerifiableDkg {
                dkg_params: *dkg_params,
                pvss_params: PubliclyVerifiableParams::default(),
                validators: validators.clone(),
                domain,
                me: *me,
                vss: Vec::new(),
            },
        )
    }

    /// Records a received transcript beside the ones already held.
    pub fn add_transcript(&mut self, transcript: PubliclyVerifiableSS<Unaggregated>)
        requires
            old(self).wf(),
            transcript.coeffs@.len() > 0,
        ensures
            final(self).wf(),
            final(self).vss@ == old(self).vss@.push(transcript),
            final(self).dkg_params == old(self).dkg_params,
            final(self).pvss_params == old(self).pvss_params,
            final(self).validators == old(self).validators,
            final(self).domain == old(self).domain,
            final(self).me == old(self).me,
    {
        self.vss.push(transcript);
    }
}

} // verus!

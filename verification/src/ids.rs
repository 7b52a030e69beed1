use vstd::prelude::*;

verus! {

/// An account or asset identity is a 32-byte value.
pub open spec fn is_id(s: Seq<u8>) -> bool {
    s.len() == 32
}

/// The seed tag `"mint-authority"`, keying the wrapped mint's authority.
pub open spec fn mint_authority_tag() -> Seq<u8> {
    seq![109u8, 105u8, 110u8, 116u8, 45u8, 97u8, 117u8, 116u8, 104u8, 111u8, 114u8, 105u8,
        116u8, 121u8]
}

/// The seed tag `"vault-authority"`, keying the custody vault's authority.
pub open spec fn vault_authority_tag() -> Seq<u8> {
    seq![118u8, 97u8, 117u8, 108u8, 116u8, 45u8, 97u8, 117u8, 116u8, 104u8, 111u8, 114u8,
        105u8, 116u8, 121u8]
}

/// The seed tag `"mint"`, keying the registry record's own address.
pub open spec fn registry_tag() -> Seq<u8> {
    seq![109u8, 105u8, 110u8, 116u8]
}

/// Builds the `"mint-authority"` seed tag.
pub fn mint_authority_seed() -> (r: Vec<u8>)
    ensures
        r@ == mint_authority_tag(),
{
    let mut v: Vec<u8> = Vec::new();
    v.push(109);
    v.push(105);
    v.push(110);
    v.push(116);
    v.push(45);
    v.push(97);
    v.push(117);
    v.push(116);
    v.push(104);
    v.push(111);
    v.push(114);
    v.push(105);
    v.push(116);
    v.push(121);
    proof {
        assert(v@ =~= mint_authority_tag());
    }
    v
}

/// Builds the `"vault-authority"` seed tag.
pub fn vault_authority_seed() -> (r: Vec<u8>)
    ensures
        r@ == vault_authority_tag(),
{
    let mut v: Vec<u8> = Vec::new();
    v.push(118);
    v.push(97);
    v.push(117);
    v.push(108);
    v.push(116);
    v.push(45);
    v.push(97);
    v.push(117);
    v.push(116);
    v.push(104);
    v.push(111);
    v.push(114);
    v.push(105);
    v.push(116);
    v.push(121);
    proof {
        assert(v@ =~= vault_authority_tag());
    }
    v
}

/// Builds the `"mint"` seed tag.
pub fn registry_seed() -> (r: Vec<u8>)
    ensures
        r@ == registry_tag(),
{
    let mut v: Vec<u8> = Vec::new();
    v.push(109);
    v.push(105);
    v.push(110);
    v.push(116);
    proof {
        assert(v@ =~= registry_tag());
    }
    v
}

/// A copy of an identity, byte for byte.
pub fn clone_id(v: &Vec<u8>) -> (r: Vec<u8>)
    ensures
        r@ == v@,
{
    let mut out: Vec<u8> = Vec::new();
    let mut i: usize = 0;
    while i < v.len()
        invariant
            0 <= i <= v@.len(),
            out@ == v@.take(i as int),
        decreases v@.len() - i,
    {
        out.push(v[i]);
        proof {
            assert(out@ =~= v@.take(i + 1));
        }
        i += 1;
    }
    proof {
        assert(out@ =~= v@);
    }
    out
}

/// Byte-for-byte equality of two identities.
pub fn id_eq(a: &Vec<u8>, b: &Vec<u8>) -> (r: bool)
    ensures
        r == (a@ == b@),
{
    if a.len() != b.len() {
        return false;
    }
    let mut i: usize = 0;
    while i < a.len()
        invariant
            a@.len() == b@.len(),
            0 <= i <= a@.len(),
            forall|j: int| 0 <= j < i ==> a@[j] == b@[j],
        decreases a@.len() - i,
    {
        if a[i] != b[i] {
            return false;
        }
        i += 1;
    }
    proof {
        assert(a@ =~= b@);
    }
    true
}

} // verus!

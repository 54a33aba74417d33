use vstd::prelude::*;

verus! {

/// The DER length bytes for a content length below 65536.
pub open spec fn der_len_bytes(n: int) -> Seq<u8> {
    if n < 0x80 {
        seq![n as u8]
    } else if n < 0x100 {
        seq![0x81u8, n as u8]
    } else {
        seq![0x82u8, (n / 0x100) as u8, (n % 0x100) as u8]
    }
}

/// The DER algorithm identifier for an EC key on curve prime256v1:
/// SEQUENCE { OID 1.2.840.10045.2.1, OID 1.2.840.10045.3.1.7 }.
pub open spec fn ec_alg_id() -> Seq<u8> {
    seq![0x30u8, 0x13, 0x06, 0x07, 0x2a, 0x86, 0x48, 0xce, 0x3d, 0x02, 0x01, 0x06, 0x08, 0x2a, 0x86, 0x48, 0xce, 0x3d, 0x03, 0x01, 0x07]
}

/// The body of the PKCS#8 PrivateKeyInfo: version 0, the EC algorithm
/// identifier, and the SEC1 key carried unchanged in an OCTET STRING.
pub open spec fn pkcs8_body(sec1: Seq<u8>) -> Seq<u8> {
    seq![0x02u8, 0x01, 0x00] + ec_alg_id() + seq![0x04u8] + der_len_bytes(sec1.len() as int) + sec1
}

/// The whole PKCS#8 container: the body in an outer SEQUENCE.
pub open spec fn pkcs8_of(sec1: Seq<u8>) -> Seq<u8> {
    seq![0x30u8] + der_len_bytes(pkcs8_body(sec1).len() as int) + pkcs8_body(sec1)
}

fn push_der_len(out: &mut Vec<u8>, n: usize)
    requires
        n < 0x10000,
    ensures
        final(out)@ == old(out)@ + der_len_bytes(n as int),
{
    if n < 0x80 {
        out.push(n as u8);
    } else if n < 0x100 {
        out.push(0x81);
        out.push(n as u8);
    } else {
        out.push(0x82);
        out.push((n / 0x100) as u8);
        out.push((n % 0x100) as u8);
    }
    proof {
        assert(out@ =~= old(out)@ + der_len_bytes(n as int));
    }
}

fn push_all(out: &mut Vec<u8>, bytes: &Vec<u8>)
    ensures
        final(out)@ == old(out)@ + bytes@,
{
    let ghost pre = out@;
    let n = bytes.len();
    let mut i: usize = 0;
    while i < n
        invariant
            n == bytes@.len(),
            i <= n,
            out@ == pre + bytes@.subrange(0, i as int),
        decreases n - i,
    {
        out.push(bytes[i]);
        proof {
            assert(pre + bytes@.subrange(0, i as int) + seq![bytes@[i as int]] =~= pre
                + bytes@.subrange(0, i + 1 as int));
        }
        i = i + 1;
    }
    proof {
        assert(out@ =~= pre + bytes@);
    }
}

/// Rewrap a SEC1-encoded EC private key as a PKCS#8 PrivateKeyInfo:
/// the same curve-point bytes with different outer framing, not a
/// cryptographic transformation. Run once at process start; a process
/// must not come up if the stored key is malformed, which the caller
/// enforces when the signing collaborator rejects the result.
pub fn sec1_to_pkcs8(sec1: &Vec<u8>) -> (r: Vec<u8>)
    requires
        sec1@.len() <= 0xFF00,
    ensures
        r@ == pkcs8_of(sec1@),
{
    let mut body: Vec<u8> = Vec::new();
    body.push(0x02);
    body.push(0x01);
    body.push(0x00);
    let mut alg: Vec<u8> = Vec::new();
    alg.push(0x30);
    alg.push(0x13);
    alg.push(0x06);
    alg.push(0x07);
    alg.push(0x2a);
    alg.push(0x86);
    alg.push(0x48);
    alg.push(0xce);
    alg.push(0x3d);
    alg.push(0x02);
    alg.push(0x01);
    alg.push(0x06);
    alg.push(0x08);
    alg.push(0x2a);
    alg.push(0x86);
    alg.push(0x48);
    alg.push(0xce);
    alg.push(0x3d);
    alg.push(0x03);
    alg.push(0x01);
    alg.push(0x07);
    proof {
        assert(alg@ =~= ec_alg_id());
    }
    push_all(&mut body, &alg);
    body.push(0x04);
    push_der_len(&mut body, sec1.len());
    push_all(&mut body, sec1);
    proof {
        assert(body@ =~= pkcs8_body(sec1@));
    }
    let mut r: Vec<u8> = Vec::new();
    r.push(0x30);
    push_der_len(&mut r, body.len());
    push_all(&mut r, &body);
    proof {
        assert(r@ =~= pkcs8_of(sec1@));
    }
    r
}

} // verus!

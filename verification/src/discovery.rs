//! LAN auto-discovery rules: which UDP datagrams count as a discovery
//! probe, and the exact bytes of the reply.
//!
//! The socket itself lives outside; it hands the received bytes in and
//! sends the reply bytes back to the probe's source address.

use vstd::prelude::*;

verus! {

/// Largest datagram the responder reads.
pub const MAX_DATA_SIZE: usize = 512;

/// The ASCII magic `SidDevice` that opens every discovery probe and reply.
pub open spec fn magic_id() -> Seq<u8> {
    seq![0x53u8, 0x69, 0x64, 0x44, 0x65, 0x76, 0x69, 0x63, 0x65]
}

/// A discovered client: where the reply must go.
pub struct Client {
    pub ip_address: String,
    pub port: u16,
}

/// Whether a receive buffer starts with the discovery magic.
pub fn is_valid_packet(buffer: &Vec<u8>) -> (r: bool)
    requires
        buffer@.len() >= 9,
    ensures
        r == (buffer@.subrange(0, 9) == magic_id()),
{
    let r = buffer[0] == 0x53 && buffer[1] == 0x69 && buffer[2] == 0x64 && buffer[3] == 0x44
        && buffer[4] == 0x65 && buffer[5] == 0x76 && buffer[6] == 0x69 && buffer[7] == 0x63
        && buffer[8] == 0x65;
    proof {
        if r {
            assert(buffer@.subrange(0, 9) =~= magic_id());
        }
        if buffer@.subrange(0, 9) == magic_id() {
            assert(buffer@[0] == magic_id()[0]);
            assert(buffer@[1] == magic_id()[1]);
            assert(buffer@[2] == magic_id()[2]);
            assert(buffer@[3] == magic_id()[3]);
            assert(buffer@[4] == magic_id()[4]);
            assert(buffer@[5] == magic_id()[5]);
            assert(buffer@[6] == magic_id()[6]);
            assert(buffer@[7] == magic_id()[7]);
            assert(buffer@[8] == magic_id()[8]);
        }
    }
    r
}

/// Whether a received datagram of `size` bytes is a discovery probe: long
/// enough and opening with the magic.  Exactly the probes this accepts are
/// answered, once each.
pub fn detect_packet(buffer: &Vec<u8>, size: usize) -> (r: bool)
    requires
        size <= buffer@.len(),
        buffer@.len() >= 9,
    ensures
        r == (size >= 9 && buffer@.subrange(0, 9) == magic_id()),
{
    size >= 9 && is_valid_packet(buffer)
}

/// Append every byte of `src` to `dst`.
fn push_all(dst: &mut Vec<u8>, src: &Vec<u8>)
    ensures
        final(dst)@ == old(dst)@ + src@,
{
    let mut i: usize = 0;
    while i < src.len()
        invariant
            i <= src@.len(),
            dst@ == old(dst)@ + src@.take(i as int),
        decreases src@.len() - i,
    {
        let ghost before = dst@;
        dst.push(src[i]);
        proof {
            assert(before.push(src@[i as int]) =~= old(dst)@ + src@.take(i + 1int));
        }
        i = i + 1;
    }
    proof {
        assert(src@.take(src@.len() as int) =~= src@);
    }
}

/// The reply to a discovery probe: `SidDevice,<hostname>,<os description>`.
pub fn discovery_response(hostname: &Vec<u8>, os_name: &Vec<u8>) -> (r: Vec<u8>)
    ensures
        r@ == magic_id() + seq![44u8] + hostname@ + seq![44u8] + os_name@,
{
    let mut r: Vec<u8> = vec![0x53, 0x69, 0x64, 0x44, 0x65, 0x76, 0x69, 0x63, 0x65, 44];
    proof {
        assert(r@ =~= magic_id() + seq![44u8]);
    }
    push_all(&mut r, hostname);
    r.push(44);
    push_all(&mut r, os_name);
    proof {
        assert(r@ =~= magic_id() + seq![44u8] + hostname@ + seq![44u8] + os_name@);
    }
    r
}

/// The OS half of the reply: `<edition> <bitness>` when the edition is
/// known, else `<os type> <version> <bitness>`.
pub fn os_description(
    edition: &Option<Vec<u8>>,
    os_type: &Vec<u8>,
    version: &Vec<u8>,
    bitness: &Vec<u8>,
) -> (r: Vec<u8>)
    ensures
        edition matches Some(e) ==> r@ == e@ + seq![32u8] + bitness@,
        edition is None ==> r@ == os_type@ + seq![32u8] + version@ + seq![32u8] + bitness@,
{
    let mut r: Vec<u8> = Vec::new();
    match edition {
        Some(e) => {
            push_all(&mut r, e);
            r.push(32);
            push_all(&mut r, bitness);
            proof {
                assert(r@ =~= edition->Some_0@ + seq![32u8] + bitness@);
            }
        },
        None => {
            push_all(&mut r, os_type);
            r.push(32);
            push_all(&mut r, version);
            r.push(32);
            push_all(&mut r, bitness);
            proof {
                assert(r@ =~= os_type@ + seq![32u8] + version@ + seq![32u8] + bitness@);
            }
        },
    }
    r
}

} // verus!

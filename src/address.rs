use vstd::prelude::*;

verus! {

/// An IP address, held as the big-endian number its octets spell.
#[derive(Clone, Copy, Debug, PartialEq, Eq, Structural)]
pub enum HostIp {
    V4(u32),
    V6(u128),
}

/// An IP address and a port.
#[derive(Clone, Copy, Debug, PartialEq, Eq, Structural)]
pub struct SocketAddress {
    pub ip: HostIp,
    pub port: u16,
}

/// 256 to the power `n`.
pub open spec fn pow256(n: nat) -> nat
    decreases n,
{
    if n == 0 {
        1
    } else {
        256 * pow256((n - 1) as nat)
    }
}

/// The number that the bytes of `s` spell, most significant first.
pub open spec fn be_value(s: Seq<u8>) -> nat
    decreases s.len(),
{
    if s.len() == 0 {
        0
    } else {
        (be_value(s.drop_last()) * 256 + s.last()) as nat
    }
}

proof fn lemma_pow256_facts()
    ensures
        pow256(2) == 0x1_0000,
        pow256(4) == 0x1_0000_0000,
        pow256(16) == 0x1_0000_0000_0000_0000_0000_0000_0000_0000,
{
    reveal_with_fuel(pow256, 17);
}

/// Reads `n` bytes of `buf` from `start` as a big-endian number.
pub fn read_be(buf: &[u8], start: usize, n: usize) -> (r: u128)
    requires
        n <= 16,
        start + n <= buf@.len(),
    ensures
        r as nat == be_value(buf@.subrange(start as int, start + n)),
        r < pow256(n as nat),
{
    let len = buf.len();
    let mut acc: u128 = 0;
    let mut i: usize = 0;
    proof {
        lemma_pow256_facts();
        assert(buf@.subrange(start as int, start as int) =~= Seq::<u8>::empty());
    }
    while i < n
        invariant
            n <= 16,
            start + n <= buf@.len(),
            buf@.len() == len,
            i <= n,
            acc as nat == be_value(buf@.subrange(start as int, start + i)),
            acc < pow256(i as nat),
            pow256(16) == 0x1_0000_0000_0000_0000_0000_0000_0000_0000,
        decreases n - i,
    {
        let ghost prev = buf@.subrange(start as int, start + i);
        let ghost next = buf@.subrange(start as int, start + i + 1);
        proof {
            assert(next.drop_last() =~= prev);
            assert(next.last() == buf@[start + i]);
            lemma_pow256_monotone(i as nat + 1, 16);
            assert(pow256(i as nat + 1) == 256 * pow256(i as nat));
        }
        let byte = buf[start + i];
        acc = acc * 256 + byte as u128;
        i = i + 1;
    }
    acc
}

proof fn lemma_pow256_monotone(a: nat, b: nat)
    requires
        a <= b,
    ensures
        pow256(a) <= pow256(b),
    decreases b - a,
{
    if a < b {
        lemma_pow256_monotone(a, (b - 1) as nat);
        assert(pow256(b) == 256 * pow256((b - 1) as nat));
    }
}

} // verus!

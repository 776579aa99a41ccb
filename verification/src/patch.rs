//! Machine code that the loader patches into the game: a jump from the
//! game's copy of an OpenAL function to the system library's one.
use vstd::arithmetic::power::pow;
use vstd::prelude::*;

verus! {

/// Number of bytes in an address.
pub open spec fn address_bytes() -> nat {
    (usize::BITS / 8) as nat
}

/// The `n` low bytes of `x`, least significant first.
pub open spec fn le_bytes(x: nat, n: nat) -> Seq<u8>
    decreases n,
{
    if n == 0 {
        Seq::<u8>::empty()
    } else {
        seq![(x % 256) as u8] + le_bytes(x / 256, (n - 1) as nat)
    }
}

/// The number that little-endian bytes spell.
pub open spec fn le_value(b: Seq<u8>) -> nat
    decreases b.len(),
{
    if b.len() == 0 {
        0
    } else {
        b[0] as nat + 256 * le_value(b.drop_first())
    }
}

/// `mov eax, address; jmp eax`: the opcode 0xB8, the address in little
/// endian, then 0xFF 0xE0.
pub open spec fn jump_to(address: usize) -> Seq<u8> {
    seq![0xB8u8] + le_bytes(address as nat, address_bytes()) + seq![0xFFu8, 0xE0u8]
}

/// The code of a jump to `address`, which overwrites the start of a
/// function so that calls to it land at `address`.
pub fn jump_stub(address: usize) -> (code: Vec<u8>)
    ensures
        code@ == jump_to(address),
{
    let n: usize = (usize::BITS / 8) as usize;
    let mut code: Vec<u8> = Vec::new();
    code.push(0xB8);
    let mut rest: usize = address;
    let mut i: usize = 0;
    assert(code@ + le_bytes(address as nat, n as nat) =~= seq![0xB8u8] + le_bytes(
        address as nat,
        address_bytes(),
    ));
    while i < n
        invariant
            i <= n,
            n == address_bytes(),
            code@ + le_bytes(rest as nat, (n - i) as nat) == seq![0xB8u8] + le_bytes(
                address as nat,
                address_bytes(),
            ),
        decreases n - i,
    {
        let ghost before = code@;
        code.push((rest % 256) as u8);
        assert(before + le_bytes(rest as nat, (n - i) as nat) =~= code@ + le_bytes(
            (rest / 256) as nat,
            (n - i - 1) as nat,
        ));
        rest = rest / 256;
        i = i + 1;
    }
    assert(le_bytes(rest as nat, 0) =~= Seq::<u8>::empty());
    assert(code@ + Seq::<u8>::empty() =~= code@);
    let ghost body = code@;
    code.push(0xFF);
    code.push(0xE0);
    assert(code@ =~= body + seq![0xFFu8, 0xE0u8]);
    code
}

/// Little-endian bytes of a number below 256^n spell that number.
pub proof fn lemma_le_bytes_value(x: nat, n: nat)
    requires
        x < pow(256, n),
    ensures
        le_bytes(x, n).len() == n,
        le_value(le_bytes(x, n)) == x,
    decreases n,
{
    if n == 0 {
        assert(pow(256, 0) == 1) by {
            vstd::arithmetic::power::lemma_pow0(256);
        }
    } else {
        vstd::arithmetic::power::lemma_pow_adds(256, 1, (n - 1) as nat);
        vstd::arithmetic::power::lemma_pow1(256);
        let p = pow(256, (n - 1) as nat);
        assert(x / 256 < p) by (nonlinear_arith)
            requires
                x < 256 * p,
        ;
        lemma_le_bytes_value(x / 256, (n - 1) as nat);
        let b = le_bytes(x, n);
        assert(b.drop_first() =~= le_bytes(x / 256, (n - 1) as nat));
        assert(x == 256 * (x / 256) + x % 256) by (nonlinear_arith);
    }
}

/// Law of the jump: its code is the opcode, one byte per address byte, and
/// the indirect jump, and the bytes after the opcode spell the address.
pub proof fn lemma_jump_to_address(address: usize)
    ensures
        jump_to(address).len() == address_bytes() + 3,
        jump_to(address)[0] == 0xB8,
        jump_to(address)[address_bytes() + 1int] == 0xFF,
        jump_to(address)[address_bytes() + 2int] == 0xE0,
        le_value(jump_to(address).subrange(1, address_bytes() + 1int)) == address,
{
    assert(usize::BITS == 32 || usize::BITS == 64);
    if usize::BITS == 32 {
        assert(pow(256, 4) == 0x1_0000_0000) by {
            reveal_with_fuel(pow, 5);
        }
    } else {
        assert(pow(256, 8) == 0x1_0000_0000_0000_0000) by {
            reveal_with_fuel(pow, 9);
        }
    }
    lemma_le_bytes_value(address as nat, address_bytes());
    assert(jump_to(address).subrange(1, address_bytes() + 1int) =~= le_bytes(
        address as nat,
        address_bytes(),
    ));
}

} // verus!

//! Deterministic name mangling for compiled entry points, and small shared
//! association-list helpers used by the catalogs.

use vstd::prelude::*;

use crate::program::FunctionId;

verus! {

/// The value associated with `key` in an association list (first entry wins).
pub open spec fn assoc_lookup<K, V>(s: Seq<(K, V)>, key: K) -> Option<V>
    decreases s.len(),
{
    if s.len() == 0 {
        None
    } else if s[0].0 == key {
        Some(s[0].1)
    } else {
        assoc_lookup(s.drop_first(), key)
    }
}

/// Skipping past an entry whose key differs does not change the lookup.
pub proof fn lemma_assoc_lookup_skip<K, V>(s: Seq<(K, V)>, key: K, i: int)
    requires
        0 <= i < s.len(),
        s[i].0 != key,
    ensures
        assoc_lookup(s.skip(i), key) == assoc_lookup(s.skip(i + 1), key),
{
    assert(s.skip(i)[0] == s[i]);
    assert(s.skip(i).drop_first() =~= s.skip(i + 1));
}

/// Finds the value associated with `id` (first entry wins).
pub fn assoc_find<V: Copy>(entries: &Vec<(u64, V)>, id: u64) -> (r: Option<V>)
    ensures
        r == assoc_lookup(entries@, id),
{
    proof {
        assert(entries@.skip(0) =~= entries@);
    }
    let mut i: usize = 0;
    while i < entries.len()
        invariant
            i <= entries@.len(),
            assoc_lookup(entries@, id) == assoc_lookup(entries@.skip(i as int), id),
        decreases entries@.len() - i,
    {
        if entries[i].0 == id {
            proof {
                assert(entries@.skip(i as int)[0] == entries@[i as int]);
            }
            return Some(entries[i].1);
        }
        proof {
            lemma_assoc_lookup_skip(entries@, id, i as int);
        }
        i += 1;
    }
    proof {
        assert(entries@.skip(i as int) =~= Seq::<(u64, V)>::empty());
    }
    None
}

/// Decimal digit expansion of `n`, most significant digit first, as ASCII.
pub open spec fn decimal_digits(n: nat) -> Seq<u8>
    decreases n,
{
    if n < 10 {
        seq![(48 + n) as u8]
    } else {
        decimal_digits(n / 10) + seq![(48 + n % 10) as u8]
    }
}

/// The canonical mangled form of a function id: its debug name when present,
/// otherwise `f` followed by the id in decimal.
pub open spec fn mangled_name(id: FunctionId) -> Seq<u8> {
    match id.debug_name {
        Some(name) => name@,
        None => seq![102u8] + decimal_digits(id.id as nat),
    }
}

/// The fixed prefix under which every compiled function is exported
/// (`_mlir_ciface_`, the C-interface wrapper convention of the target).
pub open spec fn symbol_prefix() -> Seq<u8> {
    seq![95u8, 109u8, 108u8, 105u8, 114u8, 95u8, 99u8, 105u8, 102u8, 97u8, 99u8, 101u8, 95u8]
}

/// The exported symbol name of a function id: the fixed prefix concatenated
/// with the canonical mangled form.
pub open spec fn entry_symbol(id: FunctionId) -> Seq<u8> {
    symbol_prefix() + mangled_name(id)
}

/// Appends the decimal expansion of `n` to `out`.
fn push_decimal(out: &mut Vec<u8>, n: u64)
    ensures
        final(out)@ == old(out)@ + decimal_digits(n as nat),
    decreases n,
{
    if n < 10 {
        out.push(48 + n as u8);
    } else {
        push_decimal(out, n / 10);
        out.push(48 + (n % 10) as u8);
        proof {
            assert(out@ =~= old(out)@ + decimal_digits(n as nat));
        }
    }
}

/// Appends all bytes of `src` to `out`.
fn append_bytes(out: &mut Vec<u8>, src: &Vec<u8>)
    ensures
        final(out)@ == old(out)@ + src@,
{
    let mut i: usize = 0;
    while i < src.len()
        invariant
            i <= src@.len(),
            out@ == old(out)@ + src@.take(i as int),
        decreases src@.len() - i,
    {
        out.push(src[i]);
        proof {
            assert(out@ =~= old(out)@ + src@.take(i as int + 1));
        }
        i += 1;
    }
    proof {
        assert(src@.take(i as int) =~= src@);
    }
}

/// The canonical mangled name of a function id, as bytes.
pub fn generate_function_name(function_id: &FunctionId) -> (r: Vec<u8>)
    ensures
        r@ == mangled_name(*function_id),
{
    let mut out: Vec<u8> = Vec::new();
    match &function_id.debug_name {
        Some(name) => {
            append_bytes(&mut out, name);
            proof {
                assert(out@ =~= mangled_name(*function_id));
            }
        }
        None => {
            out.push(102);
            push_decimal(&mut out, function_id.id);
            proof {
                assert(out@ =~= mangled_name(*function_id));
            }
        }
    }
    out
}

/// The exported symbol name a compiled artifact uses for `function_id`:
/// the fixed prefix followed by the canonical mangled name.
pub fn entry_symbol_name(function_id: &FunctionId) -> (r: Vec<u8>)
    ensures
        r@ == entry_symbol(*function_id),
{
    let mut out: Vec<u8> = Vec::new();
    out.push(95);
    out.push(109);
    out.push(108);
    out.push(105);
    out.push(114);
    out.push(95);
    out.push(99);
    out.push(105);
    out.push(102);
    out.push(97);
    out.push(99);
    out.push(101);
    out.push(95);
    proof {
        assert(out@ =~= symbol_prefix());
    }
    let name = generate_function_name(function_id);
    append_bytes(&mut out, &name);
    out
}

/// Copies a vector of type ids.
pub fn copy_ids(v: &Vec<u64>) -> (r: Vec<u64>)
    ensures
        r@ == v@,
{
    let mut out: Vec<u64> = Vec::new();
    let mut i: usize = 0;
    while i < v.len()
        invariant
            i <= v@.len(),
            out@ == v@.take(i as int),
        decreases v@.len() - i,
    {
        out.push(v[i]);
        proof {
            assert(out@ =~= v@.take(i as int + 1));
        }
        i += 1;
    }
    proof {
        assert(v@.take(i as int) =~= v@);
    }
    out
}

/// Byte-vector equality, decided element by element.
pub fn bytes_eq(a: &Vec<u8>, b: &Vec<u8>) -> (r: bool)
    ensures
        r == (a@ == b@),
{
    if a.len() != b.len() {
        return false;
    }
    let mut i: usize = 0;
    while i < a.len()
        invariant
            i <= a@.len(),
            a@.len() == b@.len(),
            forall|j: int| 0 <= j < i ==> a@[j] == b@[j],
        decreases a@.len() - i,
    {
        if a[i] != b[i] {
            return false;
        }
        i += 1;
    }
    proof {
        assert(a@ =~= b@);
    }
    true
}

} // verus!

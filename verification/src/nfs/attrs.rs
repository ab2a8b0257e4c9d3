//! Attribute bitmaps: the list of attributes a bitmap names, the bitmap of a
//! list, and the values of requested attributes in the order the protocol
//! writes them.
use vstd::prelude::*;
use vstd::string::*;
use vstd::utf8::encode_utf8;
use crate::nfs::api::{NfsAttribute, NfsAttributes, SpecNfsAttributes};
use crate::nfs::types::{
    FileAttrs, NfsAce, NfsAclFlag, NfsChangePolicy, NfsExpirationPolicy, NfsFh, NfsFileSystemId,
    NfsFileType, NfsFsLocations, NfsFsLocationsInfo, NfsFsStatus, NfsLayoutType, NfsSpecData,
    NfsTime, SpecFileAttrs,
};
use crate::xdr::{
    serialize_vec_of, spec_opaque_emit, spec_u32_emit, spec_vec_emit, writes_as, Emit, XdrError,
    XdrSerialize,
};

verus! {

broadcast use {
    crate::byte_seq::lemma_seq_add_assoc,
    crate::byte_seq::lemma_bytes_deep_view,
    crate::byte_seq::lemma_words_deep_view,
};

// ---------------------------------------------------------------------------
// Bitmaps
// ---------------------------------------------------------------------------

/// `n` zero words.
pub open spec fn spec_zero_words(n: nat) -> Seq<u32> {
    Seq::new(n, |i: int| 0u32)
}

/// The index of the word that holds the bit of attribute `a`.
pub open spec fn spec_word_index(a: NfsAttribute) -> int {
    (a.spec_to_u32() / 32) as int
}

/// The bit of attribute `a` within its word.
pub open spec fn spec_bit_mask(a: NfsAttribute) -> u32 {
    1u32 << (a.spec_to_u32() % 32)
}

/// `words`, grown with zero words where it is too short to hold the bit of
/// `a`, with that bit set.
pub open spec fn spec_set_bit(words: Seq<u32>, a: NfsAttribute) -> Seq<u32> {
    let e = spec_word_index(a);
    let grown = if e >= words.len() {
        words + spec_zero_words((e + 1 - words.len()) as nat)
    } else {
        words
    };
    grown.update(e, grown[e] | spec_bit_mask(a))
}

/// `words` with the bit of each attribute of `attrs` set, in turn.
pub open spec fn spec_bits_set(words: Seq<u32>, attrs: Seq<NfsAttribute>) -> Seq<u32>
    decreases attrs.len(),
{
    if attrs.len() == 0 {
        words
    } else {
        spec_set_bit(spec_bits_set(words, attrs.drop_last()), attrs.last())
    }
}

/// Whether the bit of attribute `a` is set in `words`.
pub open spec fn spec_is_bit_set(a: NfsAttribute, words: Seq<u32>) -> bool {
    let e = spec_word_index(a);
    e < words.len() && words[e] & spec_bit_mask(a) != 0
}

/// Whether the bit of attribute `attr` is set in `attrs`; bits past the end
/// are not set.
fn is_bit_set(attr: NfsAttribute, attrs: &[u32]) -> (b: bool)
    ensures
        b == spec_is_bit_set(attr, attrs@),
{
    let num = attr.to_u32();
    let elem = (num / 32) as usize;
    if elem >= attrs.len() {
        return false;
    }
    let bit_mask = 1u32 << (num % 32);
    (attrs[elem] & bit_mask) != 0
}

/// Sets the bit of attribute `attr` in `attrs`, first growing it with zero
/// words where it is too short.
fn set_bit(attr: NfsAttribute, attrs: &mut Vec<u32>)
    ensures
        final(attrs)@ == spec_set_bit(old(attrs)@, attr),
{
    let num = attr.to_u32();
    let elem = (num / 32) as usize;
    if elem >= attrs.len() {
        let ghost start = attrs@;
        while attrs.len() <= elem
            invariant
                start == old(attrs)@,
                start.len() <= elem,
                start.len() <= attrs@.len() <= elem + 1,
                attrs@ == start + spec_zero_words((attrs@.len() - start.len()) as nat),
            decreases elem + 1 - attrs@.len(),
        {
            attrs.push(0u32);
            assert(attrs@ =~= start + spec_zero_words((attrs@.len() - start.len()) as nat));
        }
    }
    let bit_mask = 1u32 << (num % 32);
    let word = attrs[elem];
    attrs.set(elem, word | bit_mask);
}

/// The bitmap of a list of attributes.
fn bits_of(attrs: &[NfsAttribute]) -> (r: Vec<u32>)
    ensures
        r@ == spec_bits_set(Seq::empty(), attrs@),
{
    let mut bitset: Vec<u32> = Vec::new();
    for i in 0..attrs.len()
        invariant
            bitset@ == spec_bits_set(Seq::empty(), attrs@.take(i as int)),
    {
        assert(attrs@.take(i + 1).drop_last() =~= attrs@.take(i as int));
        set_bit(attrs[i], &mut bitset);
    }
    assert(attrs@.take(attrs@.len() as int) =~= attrs@);
    bitset
}

/// An attribute is the one its number names.
proof fn lemma_attribute_number(a: NfsAttribute)
    ensures
        NfsAttribute::spec_from_u32(a.spec_to_u32()) == Some(a),
{
}

/// Setting bit `i` of `x` sets it and leaves the others as they were.
proof fn lemma_or_bit(x: u32, i: u32, j: u32)
    requires
        i < 32,
        j < 32,
    ensures
        ((x | (1u32 << i)) & (1u32 << j) != 0) == (i == j || x & (1u32 << j) != 0),
        0u32 & (1u32 << j) == 0,
{
    assert(((x | (1u32 << i)) & (1u32 << j) != 0) == (i == j || x & (1u32 << j) != 0))
        by (bit_vector)
        requires
            i < 32,
            j < 32,
    ;
    assert(0u32 & (1u32 << j) == 0) by (bit_vector);
}

/// Setting the bit of `a` leaves just the bits that were set and that of
/// `a` set.
proof fn lemma_set_bit(words: Seq<u32>, a: NfsAttribute, b: NfsAttribute)
    ensures
        spec_is_bit_set(b, spec_set_bit(words, a)) == (b == a || spec_is_bit_set(b, words)),
{
    let na = a.spec_to_u32();
    let nb = b.spec_to_u32();
    let ea = spec_word_index(a);
    let eb = spec_word_index(b);
    let grown = if ea >= words.len() {
        words + spec_zero_words((ea + 1 - words.len()) as nat)
    } else {
        words
    };
    lemma_or_bit(grown[ea], na % 32, nb % 32);
    if eb < grown.len() && eb != ea {
        lemma_or_bit(grown[eb], nb % 32, nb % 32);
    }
    if na % 32 == nb % 32 && ea == eb {
        assert(na == nb);
        lemma_attribute_number(a);
        lemma_attribute_number(b);
    }
    if ea != eb {
        assert(a != b);
    }
}

/// The bitmap of a list, set over `words`, has the bit of an attribute set
/// just where the list holds it or `words` had it set.
proof fn lemma_bits_set(words: Seq<u32>, attrs: Seq<NfsAttribute>, b: NfsAttribute)
    ensures
        spec_is_bit_set(b, spec_bits_set(words, attrs)) == (attrs.contains(b) || spec_is_bit_set(
            b,
            words,
        )),
    decreases attrs.len(),
{
    if attrs.len() > 0 {
        let init = attrs.drop_last();
        lemma_bits_set(words, init, b);
        lemma_set_bit(spec_bits_set(words, init), attrs.last(), b);
        assert(attrs =~= init.push(attrs.last()));
        if init.contains(b) {
            let k = choose|k: int| 0 <= k < init.len() && init[k] == b;
            assert(attrs[k] == b);
        }
        if attrs.contains(b) && b != attrs.last() {
            let k = choose|k: int| 0 <= k < attrs.len() && attrs[k] == b;
            assert(init[k] == b);
        }
    }
}

/// The bitmap of a list of attributes has the bit of an attribute set just
/// where the list holds it.
pub proof fn lemma_bitmap_of_list(attrs: Seq<NfsAttribute>, b: NfsAttribute)
    ensures
        spec_is_bit_set(b, spec_bits_set(Seq::empty(), attrs)) == attrs.contains(b),
{
    lemma_bits_set(Seq::empty(), attrs, b);
}

// ---------------------------------------------------------------------------
// From a bitmap to a list
// ---------------------------------------------------------------------------

/// `a + b`, wrapped around to a `u32`.
pub open spec fn spec_wrapping_add(a: u32, b: u32) -> u32 {
    if a + b > u32::MAX {
        (a + b - 0x1_0000_0000) as u32
    } else {
        (a + b) as u32
    }
}

/// The attribute numbered `n`, or `Illegal` where no attribute has that
/// number.
pub open spec fn spec_attribute_of(n: u32) -> NfsAttribute {
    match NfsAttribute::spec_from_u32(n) {
        Some(a) => a,
        None => NfsAttribute::Illegal,
    }
}

/// The attributes of the set bits of `w` below bit `k`, lowest first, where
/// the bit `i` stands for the number `base + i`.
pub open spec fn spec_word_attributes(w: u32, base: u32, k: nat) -> Seq<NfsAttribute>
    decreases k,
{
    if k == 0 {
        Seq::empty()
    } else {
        let i = (k - 1) as u32;
        let prev = spec_word_attributes(w, base, (k - 1) as nat);
        if w & (1u32 << i) != 0 {
            prev.push(spec_attribute_of(spec_wrapping_add(base, i)))
        } else {
            prev
        }
    }
}

/// The attributes that a bitmap names, where its first word starts at the
/// number `base`: for each word in turn, the set bits among its 31 lowest,
/// lowest first. (The highest bit of each word is not looked at.)
pub open spec fn spec_api_from(words: Seq<u32>, base: u32) -> Seq<NfsAttribute>
    decreases words.len(),
{
    if words.len() == 0 {
        Seq::empty()
    } else {
        spec_word_attributes(words[0], base, 31) + spec_api_from(
            words.drop_first(),
            spec_wrapping_add(base, 32),
        )
    }
}

/// The attributes that a bitmap names.
pub open spec fn spec_protocol_to_api(words: Seq<u32>) -> Seq<NfsAttribute> {
    spec_api_from(words, 0)
}

/// The attribute numbered `n`, or `Illegal` where no attribute has that
/// number.
fn attribute_of(n: u32) -> (a: NfsAttribute)
    ensures
        a == spec_attribute_of(n),
{
    match NfsAttribute::from_u32(n) {
        Some(a) => a,
        None => NfsAttribute::Illegal,
    }
}

/// The attributes that the bitmap `attrs` names: for each word in turn, the
/// attributes of its set bits, lowest first. Bit `i` of word `idx` stands for
/// the attribute numbered `idx * 32 + i`; a number that names no attribute
/// gives `Illegal`, and the highest bit of each word is not looked at.
pub fn protocol_to_api(attrs: &[u32]) -> (r: Vec<NfsAttribute>)
    ensures
        r@ == spec_protocol_to_api(attrs@),
{
    let mut ret: Vec<NfsAttribute> = Vec::new();
    let mut base: u32 = 0;
    assert(attrs@.skip(0) =~= attrs@);
    assert(ret@ + spec_api_from(attrs@.skip(0), base) =~= spec_protocol_to_api(attrs@));
    for idx in 0..attrs.len()
        invariant
            ret@ + spec_api_from(attrs@.skip(idx as int), base) == spec_protocol_to_api(attrs@),
    {
        let elem = attrs[idx];
        let ghost before = ret@;
        for i in 0..31u32
            invariant
                elem == attrs@[idx as int],
                ret@ == before + spec_word_attributes(elem, base, i as nat),
        {
            if ((1u32 << i) & elem) != 0 {
                ret.push(attribute_of(base.wrapping_add(i)));
            }
            assert((1u32 << i) & elem == elem & (1u32 << i)) by (bit_vector);
            assert(ret@ =~= before + spec_word_attributes(elem, base, (i + 1) as nat));
        }
        proof {
            let rest = attrs@.skip(idx as int);
            assert(rest.drop_first() =~= attrs@.skip(idx + 1));
            assert(rest[0] == elem);
            assert(before + spec_api_from(rest, base) =~= ret@ + spec_api_from(
                attrs@.skip(idx + 1),
                spec_wrapping_add(base, 32),
            ));
        }
        base = base.wrapping_add(32);
    }
    assert(spec_api_from(attrs@.skip(attrs@.len() as int), base) =~= Seq::<NfsAttribute>::empty());
    assert(ret@ =~= ret@ + Seq::<NfsAttribute>::empty());
    ret
}

/// A number names at most the attribute whose number it is.
proof fn lemma_number_names(n: u32, a: NfsAttribute)
    requires
        NfsAttribute::spec_from_u32(n) == Some(a),
    ensures
        a.spec_to_u32() == n,
{
}

/// Every attribute number is at most 255.
proof fn lemma_attribute_number_bound(a: NfsAttribute)
    ensures
        a.spec_to_u32() <= 255,
{
}

/// Outside `Illegal`, the attribute of a number is `a` just where the number
/// is that of `a`.
proof fn lemma_attribute_of(n: u32, a: NfsAttribute)
    requires
        a != NfsAttribute::Illegal,
    ensures
        (spec_attribute_of(n) == a) == (n == a.spec_to_u32()),
{
    lemma_attribute_number(a);
    if let Some(b) = NfsAttribute::spec_from_u32(n) {
        lemma_number_names(n, b);
    }
}

/// The attributes of the set bits of `w` below bit `k` hold `a` just where
/// the bit for its number is among them and set.
proof fn lemma_word_attributes(w: u32, base: u32, k: nat, a: NfsAttribute)
    requires
        k <= 32,
        base + k <= 0x1_0000_0000,
        a != NfsAttribute::Illegal,
    ensures
        spec_word_attributes(w, base, k).contains(a) == (base <= a.spec_to_u32() < base + k && w & (
        1u32 << ((a.spec_to_u32() - base) as u32)) != 0),
    decreases k,
{
    broadcast use vstd::seq_lib::lemma_seq_contains_after_push;

    if k > 0 {
        let i = (k - 1) as u32;
        lemma_word_attributes(w, base, (k - 1) as nat, a);
        assert(spec_wrapping_add(base, i) == base + i);
        lemma_attribute_of(spec_wrapping_add(base, i), a);
        if a.spec_to_u32() == base + i {
            assert(((a.spec_to_u32() - base) as u32) == i);
        }
    } else {
        assert(spec_word_attributes(w, base, k) =~= Seq::<NfsAttribute>::empty());
    }
}

/// The attributes that words from the number `base` on name hold `a` just
/// where its bit lies among the 31 lowest of a word, and is set.
proof fn lemma_api_from(words: Seq<u32>, base: u32, a: NfsAttribute)
    requires
        base + 32 * words.len() <= 0x1_0000_0000,
        a != NfsAttribute::Illegal,
    ensures
        spec_api_from(words, base).contains(a) == (base <= a.spec_to_u32() && ({
            let d = a.spec_to_u32() - base;
            &&& d / 32 < words.len()
            &&& d % 32 < 31
            &&& words[d / 32] & (1u32 << ((d % 32) as u32)) != 0
        })),
    decreases words.len(),
{
    broadcast use vstd::seq_lib::lemma_seq_concat_contains_all_elements;

    if words.len() > 0 {
        let rest = words.drop_first();
        let next = spec_wrapping_add(base, 32);
        lemma_word_attributes(words[0], base, 31, a);
        lemma_api_from(rest, next, a);
        let n = a.spec_to_u32();
        if words.len() > 1 {
            assert(next == base + 32);
            if base + 32 <= n {
                let d = n - base;
                assert((d - 32) / 32 == d / 32 - 1);
                assert((d - 32) % 32 == d % 32);
                if d / 32 < words.len() {
                    assert(rest[d / 32 - 1] == words[d / 32]);
                }
            }
        }
        if base <= n && n - base < 32 {
            assert((n - base) / 32 == 0);
            assert((n - base) % 32 == n - base);
        }
    } else {
        assert(spec_api_from(words, base) =~= Seq::<NfsAttribute>::empty());
    }
}

/// Reading a bitmap gives an attribute just where its bit is set, for an
/// attribute other than `Illegal` whose bit is not the highest of its word
/// (those bits are not looked at).
pub proof fn lemma_bitmap_read_back(words: Seq<u32>, a: NfsAttribute)
    requires
        words.len() <= 0x800_0000,
        a != NfsAttribute::Illegal,
        a.spec_to_u32() % 32 != 31,
    ensures
        spec_protocol_to_api(words).contains(a) == spec_is_bit_set(a, words),
{
    lemma_api_from(words, 0, a);
}

/// The bitmap of a list of attributes has no more words than the highest
/// number needs.
proof fn lemma_bits_set_len(attrs: Seq<NfsAttribute>)
    ensures
        spec_bits_set(Seq::empty(), attrs).len() <= 8,
    decreases attrs.len(),
{
    if attrs.len() > 0 {
        lemma_bits_set_len(attrs.drop_last());
        lemma_attribute_number_bound(attrs.last());
    }
}

/// Reading back the bitmap of a list of attributes gives each attribute of
/// the list and no other, for an attribute other than `Illegal` whose bit is
/// not the highest of its word.
pub proof fn lemma_list_bitmap_read_back(attrs: Seq<NfsAttribute>, a: NfsAttribute)
    requires
        a != NfsAttribute::Illegal,
        a.spec_to_u32() % 32 != 31,
    ensures
        spec_protocol_to_api(spec_bits_set(Seq::empty(), attrs)).contains(a) == attrs.contains(a),
{
    lemma_bits_set_len(attrs);
    lemma_bitmap_read_back(spec_bits_set(Seq::empty(), attrs), a);
    lemma_bitmap_of_list(attrs, a);
}

// ---------------------------------------------------------------------------
// Sorting a list by attribute number
// ---------------------------------------------------------------------------

/// `s` with `a` put just before its first attribute whose number is above
/// that of `a` (at the end, where there is none).
pub open spec fn spec_insert_attribute(s: Seq<NfsAttribute>, a: NfsAttribute) -> Seq<NfsAttribute>
    decreases s.len(),
{
    if s.len() == 0 {
        seq![a]
    } else if s[0].spec_to_u32() > a.spec_to_u32() {
        seq![a] + s
    } else {
        seq![s[0]] + spec_insert_attribute(s.drop_first(), a)
    }
}

/// `s` sorted by attribute number, by inserting its attributes one after
/// another.
pub open spec fn spec_sort_attributes(s: Seq<NfsAttribute>) -> Seq<NfsAttribute>
    decreases s.len(),
{
    if s.len() == 0 {
        s
    } else {
        spec_insert_attribute(spec_sort_attributes(s.drop_last()), s.last())
    }
}

/// Inserting before the first greater attribute is inserting at its index.
proof fn lemma_insert_at(s: Seq<NfsAttribute>, a: NfsAttribute, j: int)
    requires
        0 <= j <= s.len(),
        forall|k: int| 0 <= k < j ==> s[k].spec_to_u32() <= a.spec_to_u32(),
        j < s.len() ==> s[j].spec_to_u32() > a.spec_to_u32(),
    ensures
        spec_insert_attribute(s, a) == s.insert(j, a),
    decreases s.len(),
{
    if s.len() == 0 {
        assert(s.insert(j, a) =~= seq![a]);
    } else if j == 0 {
        assert(s.insert(0, a) =~= seq![a] + s);
    } else {
        lemma_insert_at(s.drop_first(), a, j - 1);
        assert(seq![s[0]] + s.drop_first().insert(j - 1, a) =~= s.insert(j, a));
    }
}

/// Puts `a` just before the first attribute of `v` whose number is above its
/// own.
fn insert_attribute(v: &mut Vec<NfsAttribute>, a: NfsAttribute)
    ensures
        final(v)@ == spec_insert_attribute(old(v)@, a),
{
    let key = a.to_u32();
    let mut j: usize = 0;
    while j < v.len() && v[j].to_u32() <= key
        invariant
            v@ == old(v)@,
            j <= v@.len(),
            key == a.spec_to_u32(),
            forall|k: int| 0 <= k < j ==> v@[k].spec_to_u32() <= key,
        decreases v@.len() - j,
    {
        j = j + 1;
    }
    proof {
        lemma_insert_at(v@, a, j as int);
    }
    v.insert(j, a);
}

/// `attrs` sorted by attribute number.
fn sort_attributes(attrs: Vec<NfsAttribute>) -> (r: Vec<NfsAttribute>)
    ensures
        r@ == spec_sort_attributes(attrs@),
{
    let mut ret: Vec<NfsAttribute> = Vec::new();
    assert(attrs@.take(0) =~= Seq::<NfsAttribute>::empty());
    for i in 0..attrs.len()
        invariant
            ret@ == spec_sort_attributes(attrs@.take(i as int)),
    {
        assert(attrs@.take(i + 1).drop_last() =~= attrs@.take(i as int));
        insert_attribute(&mut ret, attrs[i]);
    }
    assert(attrs@.take(attrs@.len() as int) =~= attrs@);
    ret
}

/// The attributes of `s` come in order of their numbers.
pub open spec fn spec_sorted_by_number(s: Seq<NfsAttribute>) -> bool {
    forall|i: int, j: int|
        0 <= i <= j < s.len() ==> #[trigger] s[i].spec_to_u32() <= #[trigger] s[j].spec_to_u32()
}

/// No attribute of `s` has a number below `n`.
pub open spec fn spec_numbers_from(s: Seq<NfsAttribute>, n: u32) -> bool {
    forall|i: int| 0 <= i < s.len() ==> n <= #[trigger] s[i].spec_to_u32()
}

/// Inserting into an ordered list keeps it ordered, adds just the one
/// attribute, and keeps any lower bound that the attribute keeps.
proof fn lemma_insert_sorted(s: Seq<NfsAttribute>, a: NfsAttribute)
    requires
        spec_sorted_by_number(s),
    ensures
        spec_sorted_by_number(spec_insert_attribute(s, a)),
        spec_insert_attribute(s, a).to_multiset() == s.to_multiset().insert(a),
        forall|n: u32|
            spec_numbers_from(s, n) && n <= a.spec_to_u32() ==> #[trigger] spec_numbers_from(
                spec_insert_attribute(s, a),
                n,
            ),
    decreases s.len(),
{
    broadcast use vstd::seq_lib::to_multiset_insert;

    if s.len() == 0 {
        assert(seq![a] =~= s.insert(0, a));
    } else if s[0].spec_to_u32() > a.spec_to_u32() {
        assert(seq![a] + s =~= s.insert(0, a));
    } else {
        let rest = s.drop_first();
        lemma_insert_sorted(rest, a);
        let t = spec_insert_attribute(rest, a);
        assert(spec_numbers_from(rest, s[0].spec_to_u32()));
        assert(spec_numbers_from(t, s[0].spec_to_u32()));
        assert(seq![s[0]] + t =~= t.insert(0, s[0]));
        assert(s =~= rest.insert(0, s[0]));
        assert forall|n: u32|
            spec_numbers_from(s, n) && n <= a.spec_to_u32() implies #[trigger] spec_numbers_from(
            seq![s[0]] + t,
            n,
        ) by {
            assert(spec_numbers_from(rest, n));
            assert(spec_numbers_from(t, n));
        }
    }
}

/// Sorting a list of attributes gives them in order of their numbers, each
/// as often as it was in the list.
pub proof fn lemma_sort_attributes(s: Seq<NfsAttribute>)
    ensures
        spec_sorted_by_number(spec_sort_attributes(s)),
        spec_sort_attributes(s).to_multiset() == s.to_multiset(),
    decreases s.len(),
{
    broadcast use vstd::seq_lib::to_multiset_build;

    if s.len() > 0 {
        lemma_sort_attributes(s.drop_last());
        lemma_insert_sorted(spec_sort_attributes(s.drop_last()), s.last());
        assert(s =~= s.drop_last().push(s.last()));
    }
}

// ---------------------------------------------------------------------------
// Writing the values of attributes
// ---------------------------------------------------------------------------

/// What answering the attribute `a` writes, for an object with the values
/// `v`: nothing (`None`) where the object has no such value or the attribute
/// is not one this library answers.
#[verifier::opaque]
pub open spec fn spec_attribute_emit(a: NfsAttribute, v: SpecNfsAttributes) -> Option<Emit> {
    match a {
        NfsAttribute::SupportedAttributes => Some(<Vec<u32> as XdrSerialize>::spec_emit(spec_bits_set(Seq::empty(), v.supported_attributes))),
        NfsAttribute::FileType => Some(<NfsFileType as XdrSerialize>::spec_emit(v.file_type)),
        NfsAttribute::ExpirationPolicy => Some(<NfsExpirationPolicy as XdrSerialize>::spec_emit(v.expiration_policy)),
        NfsAttribute::Changed => Some(<u64 as XdrSerialize>::spec_emit(v.changed)),
        NfsAttribute::Size => Some(<u64 as XdrSerialize>::spec_emit(v.size)),
        NfsAttribute::LinkSupport => Some(<bool as XdrSerialize>::spec_emit(v.link_support)),
        NfsAttribute::SymlinkSupport => Some(<bool as XdrSerialize>::spec_emit(v.symlink_support)),
        NfsAttribute::NamedAttributes => Some(<bool as XdrSerialize>::spec_emit(v.named_attributes)),
        NfsAttribute::FileSystemId => Some(<NfsFileSystemId as XdrSerialize>::spec_emit(v.file_system_id)),
        NfsAttribute::UniqueHandles => Some(<bool as XdrSerialize>::spec_emit(v.unique_handles)),
        NfsAttribute::LeaseTime => Some(<u32 as XdrSerialize>::spec_emit(v.lease_time)),
        NfsAttribute::FileHandle => Some(<NfsFh as XdrSerialize>::spec_emit(v.file_handle)),
        NfsAttribute::ExclusiveCreateAttributes => Some(<Vec<u32> as XdrSerialize>::spec_emit(spec_bits_set(Seq::empty(), v.exclusive_create_attributes))),
        NfsAttribute::Acl => match v.acl {
                Some(x) => Some(spec_vec_emit::<NfsAce>(x)),
                None => None,
            },
        NfsAttribute::AclSupport => match v.acl_support {
                Some(x) => Some(<u32 as XdrSerialize>::spec_emit(x)),
                None => None,
            },
        NfsAttribute::Archive => match v.archive {
                Some(x) => Some(<bool as XdrSerialize>::spec_emit(x)),
                None => None,
            },
        NfsAttribute::CanSetTime => match v.can_set_time {
                Some(x) => Some(<bool as XdrSerialize>::spec_emit(x)),
                None => None,
            },
        NfsAttribute::CaseInsensitive => match v.case_insensitive {
                Some(x) => Some(<bool as XdrSerialize>::spec_emit(x)),
                None => None,
            },
        NfsAttribute::CasePreserving => match v.case_preserving {
                Some(x) => Some(<bool as XdrSerialize>::spec_emit(x)),
                None => None,
            },
        NfsAttribute::ChangePolicy => match v.change_policy {
                Some(x) => Some(<NfsChangePolicy as XdrSerialize>::spec_emit(x)),
                None => None,
            },
        NfsAttribute::ChownRestricted => match v.chown_restricted {
                Some(x) => Some(<bool as XdrSerialize>::spec_emit(x)),
                None => None,
            },
        NfsAttribute::DAcl => match v.dacl {
                Some(x) => Some(spec_u32_emit(x.0).and_then(spec_vec_emit::<NfsAce>(x.1))),
                None => None,
            },
        NfsAttribute::DirectoryNotificationDelay => match v.directory_notification_delay {
                Some(x) => Some(<NfsTime as XdrSerialize>::spec_emit(x)),
                None => None,
            },
        NfsAttribute::DirectoryEntryNotificationDelay => match v.directory_entry_notification_delay {
                Some(x) => Some(<NfsTime as XdrSerialize>::spec_emit(x)),
                None => None,
            },
        NfsAttribute::FileId => match v.file_id {
                Some(x) => Some(<u64 as XdrSerialize>::spec_emit(x)),
                None => None,
            },
        NfsAttribute::FilesAvailable => match v.files_available {
                Some(x) => Some(<u64 as XdrSerialize>::spec_emit(x)),
                None => None,
            },
        NfsAttribute::FilesFree => match v.files_free {
                Some(x) => Some(<u64 as XdrSerialize>::spec_emit(x)),
                None => None,
            },
        NfsAttribute::FilesTotal => match v.files_total {
                Some(x) => Some(<u64 as XdrSerialize>::spec_emit(x)),
                None => None,
            },
        NfsAttribute::FileSystemCharsetAbilities => match v.file_system_charset_abilities {
                Some(x) => Some(<u32 as XdrSerialize>::spec_emit(x)),
                None => None,
            },
        NfsAttribute::FileSystemLayoutType => match v.file_system_layout_type {
                Some(x) => Some(spec_vec_emit::<NfsLayoutType>(x)),
                None => None,
            },
        NfsAttribute::FileSystemLocations => match v.file_system_locations {
                Some(x) => Some(<NfsFsLocations as XdrSerialize>::spec_emit(x)),
                None => None,
            },
        NfsAttribute::FileSystemLocationsInfo => match v.file_system_locations_info {
                Some(x) => Some(<NfsFsLocationsInfo as XdrSerialize>::spec_emit(x)),
                None => None,
            },
        NfsAttribute::FileSystemStatus => match v.file_system_status {
                Some(x) => Some(<NfsFsStatus as XdrSerialize>::spec_emit(x)),
                None => None,
            },
        NfsAttribute::Hidden => match v.hidden {
                Some(x) => Some(<bool as XdrSerialize>::spec_emit(x)),
                None => None,
            },
        NfsAttribute::Homogeneous => match v.homogeneous {
                Some(x) => Some(<bool as XdrSerialize>::spec_emit(x)),
                None => None,
            },
        NfsAttribute::LayoutAlignment => match v.layout_alignment {
                Some(x) => Some(<u32 as XdrSerialize>::spec_emit(x)),
                None => None,
            },
        NfsAttribute::LayoutBlockSize => match v.layout_block_size {
                Some(x) => Some(<u32 as XdrSerialize>::spec_emit(x)),
                None => None,
            },
        NfsAttribute::LayoutType => match v.layout_type {
                Some(x) => Some(spec_vec_emit::<NfsLayoutType>(x)),
                None => None,
            },
        NfsAttribute::MaxFileSize => match v.max_file_size {
                Some(x) => Some(<u64 as XdrSerialize>::spec_emit(x)),
                None => None,
            },
        NfsAttribute::MaxLinks => match v.max_links {
                Some(x) => Some(<u32 as XdrSerialize>::spec_emit(x)),
                None => None,
            },
        NfsAttribute::MaxNameLength => match v.max_name_length {
                Some(x) => Some(<u32 as XdrSerialize>::spec_emit(x)),
                None => None,
            },
        NfsAttribute::MaxReadLength => match v.max_read_length {
                Some(x) => Some(<u64 as XdrSerialize>::spec_emit(x)),
                None => None,
            },
        NfsAttribute::MaxWriteLength => match v.max_write_length {
                Some(x) => Some(<u64 as XdrSerialize>::spec_emit(x)),
                None => None,
            },
        NfsAttribute::MimeType => match v.mime_type {
                Some(x) => Some(spec_opaque_emit(encode_utf8(x))),
                None => None,
            },
        NfsAttribute::Mode => match v.mode {
                Some(x) => Some(<u32 as XdrSerialize>::spec_emit(x)),
                None => None,
            },
        NfsAttribute::MountedOnFileId => match v.mounted_on_file_id {
                Some(x) => Some(<u64 as XdrSerialize>::spec_emit(x)),
                None => None,
            },
        NfsAttribute::NoTruncation => match v.no_truncation {
                Some(x) => Some(<bool as XdrSerialize>::spec_emit(x)),
                None => None,
            },
        NfsAttribute::NumLinks => match v.num_links {
                Some(x) => Some(<u32 as XdrSerialize>::spec_emit(x)),
                None => None,
            },
        NfsAttribute::Owner => match v.owner {
                Some(x) => Some(spec_opaque_emit(encode_utf8(x))),
                None => None,
            },
        NfsAttribute::OwnerGroup => match v.owner_group {
                Some(x) => Some(spec_opaque_emit(encode_utf8(x))),
                None => None,
            },
        NfsAttribute::QuotaAvailableHard => match v.quota_available_hard {
                Some(x) => Some(<u64 as XdrSerialize>::spec_emit(x)),
                None => None,
            },
        NfsAttribute::QuotaAvailableSoft => match v.quota_available_soft {
                Some(x) => Some(<u64 as XdrSerialize>::spec_emit(x)),
                None => None,
            },
        NfsAttribute::QuotaUsed => match v.quota_used {
                Some(x) => Some(<u64 as XdrSerialize>::spec_emit(x)),
                None => None,
            },
        NfsAttribute::RawDevice => match v.raw_device {
                Some(x) => Some(<NfsSpecData as XdrSerialize>::spec_emit(x)),
                None => None,
            },
        NfsAttribute::SAcl => match v.sacl {
                Some(x) => Some(spec_u32_emit(x.0).and_then(spec_vec_emit::<NfsAce>(x.1))),
                None => None,
            },
        NfsAttribute::FileSystemSpaceAvailable => match v.file_system_space_available {
                Some(x) => Some(<u64 as XdrSerialize>::spec_emit(x)),
                None => None,
            },
        NfsAttribute::FileSystemSpaceFree => match v.file_system_space_free {
                Some(x) => Some(<u64 as XdrSerialize>::spec_emit(x)),
                None => None,
            },
        NfsAttribute::FileSystemSpaceTotal => match v.file_system_space_total {
                Some(x) => Some(<u64 as XdrSerialize>::spec_emit(x)),
                None => None,
            },
        NfsAttribute::FileSystemSpaceUsed => match v.file_system_space_used {
                Some(x) => Some(<u64 as XdrSerialize>::spec_emit(x)),
                None => None,
            },
        NfsAttribute::IsSystemFile => match v.is_system_file {
                Some(x) => Some(<bool as XdrSerialize>::spec_emit(x)),
                None => None,
            },
        NfsAttribute::TimeAccess => match v.time_access {
                Some(x) => Some(<NfsTime as XdrSerialize>::spec_emit(x)),
                None => None,
            },
        NfsAttribute::TimeBackup => match v.time_backup {
                Some(x) => Some(<NfsTime as XdrSerialize>::spec_emit(x)),
                None => None,
            },
        NfsAttribute::TimeCreate => match v.time_create {
                Some(x) => Some(<NfsTime as XdrSerialize>::spec_emit(x)),
                None => None,
            },
        NfsAttribute::TimeDelta => match v.time_delta {
                Some(x) => Some(<NfsTime as XdrSerialize>::spec_emit(x)),
                None => None,
            },
        NfsAttribute::TimeMetadata => match v.time_metadata {
                Some(x) => Some(<NfsTime as XdrSerialize>::spec_emit(x)),
                None => None,
            },
        NfsAttribute::TimeModify => match v.time_modify {
                Some(x) => Some(<NfsTime as XdrSerialize>::spec_emit(x)),
                None => None,
            },
        _ => None,
    }
}

/// The deep view of a list of attributes is its view.
pub broadcast proof fn lemma_attributes_deep_view(v: Vec<NfsAttribute>)
    ensures
        #[trigger] v.deep_view() == v@,
{
    assert(v.deep_view() =~= v@);
}

/// Appends the bitmap of the attributes `attrs` to `out`.
fn write_bits(attrs: &Vec<NfsAttribute>, out: &mut Vec<u8>) -> (r: Option<Result<(), XdrError>>)
    requires
        !(<Vec<u32> as XdrSerialize>::spec_emit(spec_bits_set(Seq::empty(), attrs.deep_view())) is Panics),
    ensures
        r matches Some(res) && writes_as(
            <Vec<u32> as XdrSerialize>::spec_emit(spec_bits_set(Seq::empty(), attrs.deep_view())),
            res,
            old(out)@,
            final(out)@,
        ),
{
    proof {
        lemma_attributes_deep_view(*attrs);
    }
    let bitset = bits_of(attrs.as_slice());
    Some(bitset.serialize(out))
}

/// Appends the value in `val` to `out`, if there is one.
fn write_optional<T: XdrSerialize>(val: &Option<T>, out: &mut Vec<u8>) -> (r: Option<
    Result<(), XdrError>,
>)
    requires
        val.deep_view() matches Some(x) ==> !(T::spec_emit(x) is Panics),
    ensures
        match val.deep_view() {
            Some(x) => r matches Some(res) && writes_as(T::spec_emit(x), res, old(out)@, final(out)@),
            None => r is None && final(out)@ == old(out)@,
        },
{
    match val {
        Some(x) => Some(x.serialize(out)),
        None => None,
    }
}

/// Appends the list in `val`, as a counted sequence, to `out`, if there is
/// one.
fn write_optional_list<T: XdrSerialize>(val: &Option<Vec<T>>, out: &mut Vec<u8>) -> (r: Option<
    Result<(), XdrError>,
>)
    requires
        val.deep_view() matches Some(x) ==> !(spec_vec_emit::<T>(x) is Panics),
    ensures
        match val.deep_view() {
            Some(x) => r matches Some(res) && writes_as(
                spec_vec_emit::<T>(x),
                res,
                old(out)@,
                final(out)@,
            ),
            None => r is None && final(out)@ == old(out)@,
        },
{
    match val {
        Some(x) => Some(serialize_vec_of(out, x)),
        None => None,
    }
}

/// Appends the access control list in `val`, its flag and then its entries,
/// to `out`, if there is one.
fn write_optional_acl(val: &Option<(NfsAclFlag, Vec<NfsAce>)>, out: &mut Vec<u8>) -> (r: Option<
    Result<(), XdrError>,
>)
    requires
        val.deep_view() matches Some(x) ==> !(spec_vec_emit::<NfsAce>(x.1) is Panics),
    ensures
        match val.deep_view() {
            Some(x) => r matches Some(res) && writes_as(
                spec_u32_emit(x.0).and_then(spec_vec_emit::<NfsAce>(x.1)),
                res,
                old(out)@,
                final(out)@,
            ),
            None => r is None && final(out)@ == old(out)@,
        },
{
    match val {
        Some(x) => {
            let _ = x.0.serialize(out);
            Some(serialize_vec_of(out, &x.1))
        },
        None => None,
    }
}

/// Appends the UTF-8 bytes of the text in `val`, as variable-size opaque
/// data, to `out`, if there is one.
fn write_optional_text(val: &Option<String>, out: &mut Vec<u8>) -> (r: Option<
    Result<(), XdrError>,
>)
    requires
        val.deep_view() matches Some(x) ==> !(spec_opaque_emit(encode_utf8(x)) is Panics),
    ensures
        match val.deep_view() {
            Some(x) => r matches Some(res) && writes_as(
                spec_opaque_emit(encode_utf8(x)),
                res,
                old(out)@,
                final(out)@,
            ),
            None => r is None && final(out)@ == old(out)@,
        },
{
    match val {
        Some(x) => {
            let data = vstd::slice::slice_to_vec(x.as_str().as_bytes());
            Some(data.serialize(out))
        },
        None => None,
    }
}

/// [`write_attribute`] for the attributes from `SupportedAttributes` to `Archive`.
#[verifier::rlimit(50)]
fn write_attribute_group_1(attr: NfsAttribute, values: &NfsAttributes, out: &mut Vec<u8>) -> (r: Option<
    Result<(), XdrError>,
>)
    requires
        attr is SupportedAttributes || attr is FileType || attr is ExpirationPolicy || attr is Changed || attr is Size || attr is LinkSupport || attr is SymlinkSupport || attr is NamedAttributes || attr is FileSystemId || attr is UniqueHandles || attr is LeaseTime || attr is FileHandle || attr is ExclusiveCreateAttributes || attr is Acl || attr is AclSupport || attr is Archive,
        spec_attribute_emit(attr, values.deep_view()) matches Some(e) ==> !(e is Panics),
    ensures
        match spec_attribute_emit(attr, values.deep_view()) {
            Some(e) => r matches Some(res) && writes_as(e, res, old(out)@, final(out)@),
            None => r is None && final(out)@ == old(out)@,
        },
{
    proof {
        reveal(spec_attribute_emit);
    }
    match attr {
        NfsAttribute::SupportedAttributes => write_bits(&values.supported_attributes, out),
        NfsAttribute::FileType => Some(values.file_type.serialize(out)),
        NfsAttribute::ExpirationPolicy => Some(values.expiration_policy.serialize(out)),
        NfsAttribute::Changed => Some(values.changed.serialize(out)),
        NfsAttribute::Size => Some(values.size.serialize(out)),
        NfsAttribute::LinkSupport => Some(values.link_support.serialize(out)),
        NfsAttribute::SymlinkSupport => Some(values.symlink_support.serialize(out)),
        NfsAttribute::NamedAttributes => Some(values.named_attributes.serialize(out)),
        NfsAttribute::FileSystemId => Some(values.file_system_id.serialize(out)),
        NfsAttribute::UniqueHandles => Some(values.unique_handles.serialize(out)),
        NfsAttribute::LeaseTime => Some(values.lease_time.serialize(out)),
        NfsAttribute::FileHandle => Some(values.file_handle.serialize(out)),
        NfsAttribute::ExclusiveCreateAttributes => write_bits(&values.exclusive_create_attributes, out),
        NfsAttribute::Acl => write_optional_list(&values.acl, out),
        NfsAttribute::AclSupport => write_optional(&values.acl_support, out),
        NfsAttribute::Archive => write_optional(&values.archive, out),
        _ => None,
    }
}

/// [`write_attribute`] for the attributes from `CanSetTime` to `FileSystemStatus`.
#[verifier::rlimit(50)]
fn write_attribute_group_2(attr: NfsAttribute, values: &NfsAttributes, out: &mut Vec<u8>) -> (r: Option<
    Result<(), XdrError>,
>)
    requires
        attr is CanSetTime || attr is CaseInsensitive || attr is CasePreserving || attr is ChangePolicy || attr is ChownRestricted || attr is DAcl || attr is DirectoryNotificationDelay || attr is DirectoryEntryNotificationDelay || attr is FileId || attr is FilesAvailable || attr is FilesFree || attr is FilesTotal || attr is FileSystemCharsetAbilities || attr is FileSystemLayoutType || attr is FileSystemLocations || attr is FileSystemLocationsInfo || attr is FileSystemStatus,
        spec_attribute_emit(attr, values.deep_view()) matches Some(e) ==> !(e is Panics),
    ensures
        match spec_attribute_emit(attr, values.deep_view()) {
            Some(e) => r matches Some(res) && writes_as(e, res, old(out)@, final(out)@),
            None => r is None && final(out)@ == old(out)@,
        },
{
    proof {
        reveal(spec_attribute_emit);
    }
    match attr {
        NfsAttribute::CanSetTime => write_optional(&values.can_set_time, out),
        NfsAttribute::CaseInsensitive => write_optional(&values.case_insensitive, out),
        NfsAttribute::CasePreserving => write_optional(&values.case_preserving, out),
        NfsAttribute::ChangePolicy => write_optional(&values.change_policy, out),
        NfsAttribute::ChownRestricted => write_optional(&values.chown_restricted, out),
        NfsAttribute::DAcl => write_optional_acl(&values.dacl, out),
        NfsAttribute::DirectoryNotificationDelay => write_optional(&values.directory_notification_delay, out),
        NfsAttribute::DirectoryEntryNotificationDelay => write_optional(&values.directory_entry_notification_delay, out),
        NfsAttribute::FileId => write_optional(&values.file_id, out),
        NfsAttribute::FilesAvailable => write_optional(&values.files_available, out),
        NfsAttribute::FilesFree => write_optional(&values.files_free, out),
        NfsAttribute::FilesTotal => write_optional(&values.files_total, out),
        NfsAttribute::FileSystemCharsetAbilities => write_optional(&values.file_system_charset_abilities, out),
        NfsAttribute::FileSystemLayoutType => write_optional_list(&values.file_system_layout_type, out),
        NfsAttribute::FileSystemLocations => write_optional(&values.file_system_locations, out),
        NfsAttribute::FileSystemLocationsInfo => write_optional(&values.file_system_locations_info, out),
        NfsAttribute::FileSystemStatus => write_optional(&values.file_system_status, out),
        _ => None,
    }
}

/// [`write_attribute`] for the attributes from `Hidden` to `Owner`.
#[verifier::rlimit(50)]
fn write_attribute_group_3(attr: NfsAttribute, values: &NfsAttributes, out: &mut Vec<u8>) -> (r: Option<
    Result<(), XdrError>,
>)
    requires
        attr is Hidden || attr is Homogeneous || attr is LayoutAlignment || attr is LayoutBlockSize || attr is LayoutType || attr is MaxFileSize || attr is MaxLinks || attr is MaxNameLength || attr is MaxReadLength || attr is MaxWriteLength || attr is MimeType || attr is Mode || attr is MountedOnFileId || attr is NoTruncation || attr is NumLinks || attr is Owner,
        spec_attribute_emit(attr, values.deep_view()) matches Some(e) ==> !(e is Panics),
    ensures
        match spec_attribute_emit(attr, values.deep_view()) {
            Some(e) => r matches Some(res) && writes_as(e, res, old(out)@, final(out)@),
            None => r is None && final(out)@ == old(out)@,
        },
{
    proof {
        reveal(spec_attribute_emit);
    }
    match attr {
        NfsAttribute::Hidden => write_optional(&values.hidden, out),
        NfsAttribute::Homogeneous => write_optional(&values.homogeneous, out),
        NfsAttribute::LayoutAlignment => write_optional(&values.layout_alignment, out),
        NfsAttribute::LayoutBlockSize => write_optional(&values.layout_block_size, out),
        NfsAttribute::LayoutType => write_optional_list(&values.layout_type, out),
        NfsAttribute::MaxFileSize => write_optional(&values.max_file_size, out),
        NfsAttribute::MaxLinks => write_optional(&values.max_links, out),
        NfsAttribute::MaxNameLength => write_optional(&values.max_name_length, out),
        NfsAttribute::MaxReadLength => write_optional(&values.max_read_length, out),
        NfsAttribute::MaxWriteLength => write_optional(&values.max_write_length, out),
        NfsAttribute::MimeType => write_optional_text(&values.mime_type, out),
        NfsAttribute::Mode => write_optional(&values.mode, out),
        NfsAttribute::MountedOnFileId => write_optional(&values.mounted_on_file_id, out),
        NfsAttribute::NoTruncation => write_optional(&values.no_truncation, out),
        NfsAttribute::NumLinks => write_optional(&values.num_links, out),
        NfsAttribute::Owner => write_optional_text(&values.owner, out),
        _ => None,
    }
}

/// [`write_attribute`] for the attributes from `OwnerGroup` to `TimeModify`.
#[verifier::rlimit(50)]
fn write_attribute_group_4(attr: NfsAttribute, values: &NfsAttributes, out: &mut Vec<u8>) -> (r: Option<
    Result<(), XdrError>,
>)
    requires
        attr is OwnerGroup || attr is QuotaAvailableHard || attr is QuotaAvailableSoft || attr is QuotaUsed || attr is RawDevice || attr is SAcl || attr is FileSystemSpaceAvailable || attr is FileSystemSpaceFree || attr is FileSystemSpaceTotal || attr is FileSystemSpaceUsed || attr is IsSystemFile || attr is TimeAccess || attr is TimeBackup || attr is TimeCreate || attr is TimeDelta || attr is TimeMetadata || attr is TimeModify,
        spec_attribute_emit(attr, values.deep_view()) matches Some(e) ==> !(e is Panics),
    ensures
        match spec_attribute_emit(attr, values.deep_view()) {
            Some(e) => r matches Some(res) && writes_as(e, res, old(out)@, final(out)@),
            None => r is None && final(out)@ == old(out)@,
        },
{
    proof {
        reveal(spec_attribute_emit);
    }
    match attr {
        NfsAttribute::OwnerGroup => write_optional_text(&values.owner_group, out),
        NfsAttribute::QuotaAvailableHard => write_optional(&values.quota_available_hard, out),
        NfsAttribute::QuotaAvailableSoft => write_optional(&values.quota_available_soft, out),
        NfsAttribute::QuotaUsed => write_optional(&values.quota_used, out),
        NfsAttribute::RawDevice => write_optional(&values.raw_device, out),
        NfsAttribute::SAcl => write_optional_acl(&values.sacl, out),
        NfsAttribute::FileSystemSpaceAvailable => write_optional(&values.file_system_space_available, out),
        NfsAttribute::FileSystemSpaceFree => write_optional(&values.file_system_space_free, out),
        NfsAttribute::FileSystemSpaceTotal => write_optional(&values.file_system_space_total, out),
        NfsAttribute::FileSystemSpaceUsed => write_optional(&values.file_system_space_used, out),
        NfsAttribute::IsSystemFile => write_optional(&values.is_system_file, out),
        NfsAttribute::TimeAccess => write_optional(&values.time_access, out),
        NfsAttribute::TimeBackup => write_optional(&values.time_backup, out),
        NfsAttribute::TimeCreate => write_optional(&values.time_create, out),
        NfsAttribute::TimeDelta => write_optional(&values.time_delta, out),
        NfsAttribute::TimeMetadata => write_optional(&values.time_metadata, out),
        NfsAttribute::TimeModify => write_optional(&values.time_modify, out),
        _ => None,
    }
}

/// Appends the value of the attribute `attr` to `out`: `None`, with nothing
/// written, where `values` has no such value or the attribute is not one
/// this library answers; else what writing the value gave.
fn write_attribute(attr: NfsAttribute, values: &NfsAttributes, out: &mut Vec<u8>) -> (r: Option<
    Result<(), XdrError>,
>)
    requires
        spec_attribute_emit(attr, values.deep_view()) matches Some(e) ==> !(e is Panics),
    ensures
        match spec_attribute_emit(attr, values.deep_view()) {
            Some(e) => r matches Some(res) && writes_as(e, res, old(out)@, final(out)@),
            None => r is None && final(out)@ == old(out)@,
        },
{
    match attr {
        NfsAttribute::SupportedAttributes | NfsAttribute::FileType | NfsAttribute::ExpirationPolicy | NfsAttribute::Changed | NfsAttribute::Size | NfsAttribute::LinkSupport | NfsAttribute::SymlinkSupport | NfsAttribute::NamedAttributes | NfsAttribute::FileSystemId | NfsAttribute::UniqueHandles | NfsAttribute::LeaseTime | NfsAttribute::FileHandle | NfsAttribute::ExclusiveCreateAttributes | NfsAttribute::Acl | NfsAttribute::AclSupport | NfsAttribute::Archive => write_attribute_group_1(attr, values, out),
        NfsAttribute::CanSetTime | NfsAttribute::CaseInsensitive | NfsAttribute::CasePreserving | NfsAttribute::ChangePolicy | NfsAttribute::ChownRestricted | NfsAttribute::DAcl | NfsAttribute::DirectoryNotificationDelay | NfsAttribute::DirectoryEntryNotificationDelay | NfsAttribute::FileId | NfsAttribute::FilesAvailable | NfsAttribute::FilesFree | NfsAttribute::FilesTotal | NfsAttribute::FileSystemCharsetAbilities | NfsAttribute::FileSystemLayoutType | NfsAttribute::FileSystemLocations | NfsAttribute::FileSystemLocationsInfo | NfsAttribute::FileSystemStatus => write_attribute_group_2(attr, values, out),
        NfsAttribute::Hidden | NfsAttribute::Homogeneous | NfsAttribute::LayoutAlignment | NfsAttribute::LayoutBlockSize | NfsAttribute::LayoutType | NfsAttribute::MaxFileSize | NfsAttribute::MaxLinks | NfsAttribute::MaxNameLength | NfsAttribute::MaxReadLength | NfsAttribute::MaxWriteLength | NfsAttribute::MimeType | NfsAttribute::Mode | NfsAttribute::MountedOnFileId | NfsAttribute::NoTruncation | NfsAttribute::NumLinks | NfsAttribute::Owner => write_attribute_group_3(attr, values, out),
        NfsAttribute::OwnerGroup | NfsAttribute::QuotaAvailableHard | NfsAttribute::QuotaAvailableSoft | NfsAttribute::QuotaUsed | NfsAttribute::RawDevice | NfsAttribute::SAcl | NfsAttribute::FileSystemSpaceAvailable | NfsAttribute::FileSystemSpaceFree | NfsAttribute::FileSystemSpaceTotal | NfsAttribute::FileSystemSpaceUsed | NfsAttribute::IsSystemFile | NfsAttribute::TimeAccess | NfsAttribute::TimeBackup | NfsAttribute::TimeCreate | NfsAttribute::TimeDelta | NfsAttribute::TimeMetadata | NfsAttribute::TimeModify => write_attribute_group_4(attr, values, out),
        _ => {
            proof {
                reveal(spec_attribute_emit);
            }
            None
        },
    }
}

/// What answering the attributes `attrs`, one after another, gives: the mask
/// of three words with the bit of each attribute that was written set, and
/// what was written.
pub open spec fn spec_values_fold(attrs: Seq<NfsAttribute>, v: SpecNfsAttributes) -> (
    Seq<u32>,
    Emit,
)
    decreases attrs.len(),
{
    if attrs.len() == 0 {
        (spec_zero_words(3), Emit::Done(Seq::empty()))
    } else {
        let prev = spec_values_fold(attrs.drop_last(), v);
        match spec_attribute_emit(attrs.last(), v) {
            Some(e) => (spec_set_bit(prev.0, attrs.last()), prev.1.and_then(e)),
            None => prev,
        }
    }
}

/// Once answering the first `i` attributes does not succeed, answering more
/// writes nothing else.
proof fn lemma_values_fold_stops(attrs: Seq<NfsAttribute>, v: SpecNfsAttributes, i: int)
    requires
        0 <= i <= attrs.len(),
        !(spec_values_fold(attrs.take(i), v).1 is Done),
    ensures
        spec_values_fold(attrs, v).1 == spec_values_fold(attrs.take(i), v).1,
    decreases attrs.len() - i,
{
    if i < attrs.len() {
        assert(attrs.take(i + 1).drop_last() =~= attrs.take(i));
        lemma_values_fold_stops(attrs, v, i + 1);
    } else {
        assert(attrs.take(i) =~= attrs);
    }
}

/// The mask that answering a list of attributes builds has the bit of an
/// attribute set just where the list holds it and the object has a value
/// for it.
proof fn lemma_values_fold_mask(attrs: Seq<NfsAttribute>, v: SpecNfsAttributes, b: NfsAttribute)
    ensures
        spec_is_bit_set(b, spec_values_fold(attrs, v).0) == (attrs.contains(b) && spec_attribute_emit(
            b,
            v,
        ) is Some),
    decreases attrs.len(),
{
    broadcast use vstd::seq_lib::lemma_seq_contains_after_push;

    if attrs.len() == 0 {
        lemma_or_bit(0, 0, b.spec_to_u32() % 32);
    } else {
        let init = attrs.drop_last();
        lemma_values_fold_mask(init, v, b);
        lemma_set_bit(spec_values_fold(init, v).0, attrs.last(), b);
        assert(attrs =~= init.push(attrs.last()));
    }
}

/// The file attributes that answer the attributes `requested` of an object
/// with the values `v`: the attributes sorted by number, and for each that
/// the object has a value for, its bit in the mask and its value in the
/// list; the first error in writing a value.
pub open spec fn spec_values_to_protocol(requested: Seq<NfsAttribute>, v: SpecNfsAttributes) -> Result<
    SpecFileAttrs,
    XdrError,
> {
    let r = spec_values_fold(spec_sort_attributes(requested), v);
    match r.1 {
        Emit::Done(b) => Ok(SpecFileAttrs { mask: r.0, attrs: b }),
        Emit::Fails(e, _) => Err(e),
        Emit::Panics => Err(XdrError::Other),
    }
}

/// The file attributes that answer the attributes `attrs`, taken in the
/// order given, of an object with the values `values`.
fn answer_attributes(attrs: &Vec<NfsAttribute>, values: &NfsAttributes) -> (r: Result<
    FileAttrs,
    XdrError,
>)
    requires
        !(spec_values_fold(attrs@, values.deep_view()).1 is Panics),
    ensures
        match spec_values_fold(attrs@, values.deep_view()).1 {
            Emit::Done(b) => r is Ok && r->Ok_0.deep_view() == (SpecFileAttrs {
                mask: spec_values_fold(attrs@, values.deep_view()).0,
                attrs: b,
            }),
            Emit::Fails(e, _) => r == Err::<FileAttrs, XdrError>(e),
            Emit::Panics => false,
        },
{
    let ghost v = values.deep_view();
    let ghost all = attrs@;
    let mut mask: Vec<u32> = Vec::new();
    mask.push(0u32);
    mask.push(0u32);
    mask.push(0u32);
    let mut out: Vec<u8> = Vec::new();
    assert(mask@ =~= spec_zero_words(3));
    assert(all.take(0) =~= Seq::<NfsAttribute>::empty());
    for i in 0..attrs.len()
        invariant
            all == attrs@,
            v == values.deep_view(),
            !(spec_values_fold(all, v).1 is Panics),
            mask@ == spec_values_fold(all.take(i as int), v).0,
            spec_values_fold(all.take(i as int), v).1 == Emit::Done(out@),
    {
        let attr = attrs[i];
        assert(all.take(i + 1).drop_last() =~= all.take(i as int));
        assert(all.take(i + 1).last() == attr);
        proof {
            if !(spec_values_fold(all.take(i + 1), v).1 is Done) {
                lemma_values_fold_stops(all, v, i + 1);
            }
        }
        match write_attribute(attr, values, &mut out) {
            None => {},
            Some(Ok(())) => {
                set_bit(attr, &mut mask);
            },
            Some(Err(e)) => {
                proof {
                    lemma_values_fold_stops(all, v, i + 1);
                }
                return Err(e);
            },
        }
    }
    assert(all.take(all.len() as int) =~= all);
    Ok(FileAttrs { mask, attrs: out })
}

/// The file attributes that answer the attributes `requested` of an object
/// with the values `values`. The attributes are taken in increasing order
/// of their numbers; each that the object has a value for sets its bit in
/// the mask and has its value appended to the list. Attributes this library
/// does not answer are left out.
pub fn values_to_protocol(requested: Vec<NfsAttribute>, values: NfsAttributes) -> (r: Result<
    FileAttrs,
    XdrError,
>)
    requires
        !(spec_values_fold(spec_sort_attributes(requested@), values.deep_view()).1 is Panics),
    ensures
        match spec_values_to_protocol(requested@, values.deep_view()) {
            Ok(fa) => r is Ok && r->Ok_0.deep_view() == fa,
            Err(e) => r == Err::<FileAttrs, XdrError>(e),
        },
{
    let sorted = sort_attributes(requested);
    answer_attributes(&sorted, &values)
}

/// The mask of the answer to requested attributes has the bit of an
/// attribute set just where it was requested and the object has a value for
/// it.
pub proof fn lemma_answered_mask(requested: Seq<NfsAttribute>, v: SpecNfsAttributes, b: NfsAttribute)
    requires
        spec_values_to_protocol(requested, v) is Ok,
    ensures
        spec_is_bit_set(b, spec_values_to_protocol(requested, v)->Ok_0.mask) == (requested.contains(b)
            && spec_attribute_emit(b, v) is Some),
{
    broadcast use vstd::seq_lib::to_multiset_contains;

    let sorted = spec_sort_attributes(requested);
    lemma_sort_attributes(requested);
    lemma_values_fold_mask(sorted, v, b);
    assert(sorted.contains(b) == requested.contains(b)) by {
        assert(sorted.to_multiset().count(b) == requested.to_multiset().count(b));
    }
}

/// Two lists in order of attribute number that hold the same attributes,
/// each as often, are the same list.
proof fn lemma_sorted_unique(a: Seq<NfsAttribute>, b: Seq<NfsAttribute>)
    requires
        spec_sorted_by_number(a),
        spec_sorted_by_number(b),
        a.to_multiset() == b.to_multiset(),
    ensures
        a == b,
    decreases a.len(),
{
    broadcast use {
        vstd::seq_lib::to_multiset_len,
        vstd::seq_lib::to_multiset_contains,
        vstd::seq_lib::to_multiset_remove,
    };

    vstd::seq_lib::to_multiset_len(a);
    vstd::seq_lib::to_multiset_len(b);
    assert(a.len() == b.len());
    if a.len() > 0 {
        assert(a.to_multiset().count(a[0]) > 0) by {
            assert(a.contains(a[0]));
        }
        assert(b.contains(a[0]));
        let j = choose|j: int| 0 <= j < b.len() && b[j] == a[0];
        assert(b[0].spec_to_u32() <= b[j].spec_to_u32());
        assert(b.to_multiset().count(b[0]) > 0) by {
            assert(b.contains(b[0]));
        }
        assert(a.contains(b[0]));
        let k = choose|k: int| 0 <= k < a.len() && a[k] == b[0];
        assert(a[0].spec_to_u32() <= a[k].spec_to_u32());
        lemma_attribute_number(a[0]);
        lemma_attribute_number(b[0]);
        assert(a[0] == b[0]);
        assert(a.remove(0) =~= a.drop_first());
        assert(b.remove(0) =~= b.drop_first());
        assert(a.remove(0).to_multiset() == a.to_multiset().remove(a[0]));
        assert(b.remove(0).to_multiset() == b.to_multiset().remove(b[0]));
        lemma_sorted_unique(a.drop_first(), b.drop_first());
        assert(a =~= seq![a[0]] + a.drop_first());
        assert(b =~= seq![b[0]] + b.drop_first());
    } else {
        assert(a =~= b);
    }
}

/// The answer to requested attributes does not depend on the order they
/// were requested in: two requests that hold the same attributes, each as
/// often, get the same answer.
pub proof fn lemma_answer_ignores_request_order(
    p: Seq<NfsAttribute>,
    q: Seq<NfsAttribute>,
    v: SpecNfsAttributes,
)
    requires
        p.to_multiset() == q.to_multiset(),
    ensures
        spec_values_to_protocol(p, v) == spec_values_to_protocol(q, v),
{
    lemma_sort_attributes(p);
    lemma_sort_attributes(q);
    lemma_sorted_unique(spec_sort_attributes(p), spec_sort_attributes(q));
}

/// What answering an attribute writes, part 1: the value of the attribute is
/// that of its own field of the object (written as its type is written), an
/// optional attribute is left out where the object has no value for it, and
/// the attributes that are not answered are left out.
#[verifier::spinoff_prover]
#[verifier::rlimit(40)]
pub proof fn lemma_attribute_values_1(v: SpecNfsAttributes)
    ensures
        spec_attribute_emit(NfsAttribute::SupportedAttributes, v) == Some(<Vec<u32> as XdrSerialize>::spec_emit(spec_bits_set(Seq::empty(), v.supported_attributes))),
        spec_attribute_emit(NfsAttribute::FileType, v) == Some(<NfsFileType as XdrSerialize>::spec_emit(v.file_type)),
        spec_attribute_emit(NfsAttribute::ExpirationPolicy, v) == Some(<NfsExpirationPolicy as XdrSerialize>::spec_emit(v.expiration_policy)),
        spec_attribute_emit(NfsAttribute::Changed, v) == Some(<u64 as XdrSerialize>::spec_emit(v.changed)),
        spec_attribute_emit(NfsAttribute::Size, v) == Some(<u64 as XdrSerialize>::spec_emit(v.size)),
        spec_attribute_emit(NfsAttribute::LinkSupport, v) == Some(<bool as XdrSerialize>::spec_emit(v.link_support)),
        spec_attribute_emit(NfsAttribute::SymlinkSupport, v) == Some(<bool as XdrSerialize>::spec_emit(v.symlink_support)),
        spec_attribute_emit(NfsAttribute::NamedAttributes, v) == Some(<bool as XdrSerialize>::spec_emit(v.named_attributes)),
        spec_attribute_emit(NfsAttribute::FileSystemId, v) == Some(<NfsFileSystemId as XdrSerialize>::spec_emit(v.file_system_id)),
        spec_attribute_emit(NfsAttribute::UniqueHandles, v) == Some(<bool as XdrSerialize>::spec_emit(v.unique_handles)),
        spec_attribute_emit(NfsAttribute::LeaseTime, v) == Some(<u32 as XdrSerialize>::spec_emit(v.lease_time)),
        spec_attribute_emit(NfsAttribute::FileHandle, v) == Some(<NfsFh as XdrSerialize>::spec_emit(v.file_handle)),
        spec_attribute_emit(NfsAttribute::ExclusiveCreateAttributes, v) == Some(<Vec<u32> as XdrSerialize>::spec_emit(spec_bits_set(Seq::empty(), v.exclusive_create_attributes))),
        (v.acl matches Some(x) ==> spec_attribute_emit(NfsAttribute::Acl, v) == Some(spec_vec_emit::<NfsAce>(x))),
        v.acl is None ==> spec_attribute_emit(NfsAttribute::Acl, v) is None,
        (v.acl_support matches Some(x) ==> spec_attribute_emit(NfsAttribute::AclSupport, v) == Some(<u32 as XdrSerialize>::spec_emit(x))),
        v.acl_support is None ==> spec_attribute_emit(NfsAttribute::AclSupport, v) is None,
        (v.archive matches Some(x) ==> spec_attribute_emit(NfsAttribute::Archive, v) == Some(<bool as XdrSerialize>::spec_emit(x))),
        v.archive is None ==> spec_attribute_emit(NfsAttribute::Archive, v) is None,
        (v.can_set_time matches Some(x) ==> spec_attribute_emit(NfsAttribute::CanSetTime, v) == Some(<bool as XdrSerialize>::spec_emit(x))),
        v.can_set_time is None ==> spec_attribute_emit(NfsAttribute::CanSetTime, v) is None,
        (v.case_insensitive matches Some(x) ==> spec_attribute_emit(NfsAttribute::CaseInsensitive, v) == Some(<bool as XdrSerialize>::spec_emit(x))),
        v.case_insensitive is None ==> spec_attribute_emit(NfsAttribute::CaseInsensitive, v) is None,
        (v.case_preserving matches Some(x) ==> spec_attribute_emit(NfsAttribute::CasePreserving, v) == Some(<bool as XdrSerialize>::spec_emit(x))),
        v.case_preserving is None ==> spec_attribute_emit(NfsAttribute::CasePreserving, v) is None,
        (v.change_policy matches Some(x) ==> spec_attribute_emit(NfsAttribute::ChangePolicy, v) == Some(<NfsChangePolicy as XdrSerialize>::spec_emit(x))),
        v.change_policy is None ==> spec_attribute_emit(NfsAttribute::ChangePolicy, v) is None,
        (v.chown_restricted matches Some(x) ==> spec_attribute_emit(NfsAttribute::ChownRestricted, v) == Some(<bool as XdrSerialize>::spec_emit(x))),
        v.chown_restricted is None ==> spec_attribute_emit(NfsAttribute::ChownRestricted, v) is None,
        (v.dacl matches Some(x) ==> spec_attribute_emit(NfsAttribute::DAcl, v) == Some(spec_u32_emit(x.0).and_then(spec_vec_emit::<NfsAce>(x.1)))),
        v.dacl is None ==> spec_attribute_emit(NfsAttribute::DAcl, v) is None,
        (v.directory_notification_delay matches Some(x) ==> spec_attribute_emit(NfsAttribute::DirectoryNotificationDelay, v) == Some(<NfsTime as XdrSerialize>::spec_emit(x))),
        v.directory_notification_delay is None ==> spec_attribute_emit(NfsAttribute::DirectoryNotificationDelay, v) is None,
        (v.directory_entry_notification_delay matches Some(x) ==> spec_attribute_emit(NfsAttribute::DirectoryEntryNotificationDelay, v) == Some(<NfsTime as XdrSerialize>::spec_emit(x))),
        v.directory_entry_notification_delay is None ==> spec_attribute_emit(NfsAttribute::DirectoryEntryNotificationDelay, v) is None,
        (v.file_id matches Some(x) ==> spec_attribute_emit(NfsAttribute::FileId, v) == Some(<u64 as XdrSerialize>::spec_emit(x))),
        v.file_id is None ==> spec_attribute_emit(NfsAttribute::FileId, v) is None,
        (v.files_available matches Some(x) ==> spec_attribute_emit(NfsAttribute::FilesAvailable, v) == Some(<u64 as XdrSerialize>::spec_emit(x))),
        v.files_available is None ==> spec_attribute_emit(NfsAttribute::FilesAvailable, v) is None,
        (v.files_free matches Some(x) ==> spec_attribute_emit(NfsAttribute::FilesFree, v) == Some(<u64 as XdrSerialize>::spec_emit(x))),
{
    reveal(spec_attribute_emit);
}

/// What answering an attribute writes, part 2: the value of the attribute is
/// that of its own field of the object (written as its type is written), an
/// optional attribute is left out where the object has no value for it, and
/// the attributes that are not answered are left out.
#[verifier::spinoff_prover]
#[verifier::rlimit(40)]
pub proof fn lemma_attribute_values_2(v: SpecNfsAttributes)
    ensures
        v.files_free is None ==> spec_attribute_emit(NfsAttribute::FilesFree, v) is None,
        (v.files_total matches Some(x) ==> spec_attribute_emit(NfsAttribute::FilesTotal, v) == Some(<u64 as XdrSerialize>::spec_emit(x))),
        v.files_total is None ==> spec_attribute_emit(NfsAttribute::FilesTotal, v) is None,
        (v.file_system_charset_abilities matches Some(x) ==> spec_attribute_emit(NfsAttribute::FileSystemCharsetAbilities, v) == Some(<u32 as XdrSerialize>::spec_emit(x))),
        v.file_system_charset_abilities is None ==> spec_attribute_emit(NfsAttribute::FileSystemCharsetAbilities, v) is None,
        (v.file_system_layout_type matches Some(x) ==> spec_attribute_emit(NfsAttribute::FileSystemLayoutType, v) == Some(spec_vec_emit::<NfsLayoutType>(x))),
        v.file_system_layout_type is None ==> spec_attribute_emit(NfsAttribute::FileSystemLayoutType, v) is None,
        (v.file_system_locations matches Some(x) ==> spec_attribute_emit(NfsAttribute::FileSystemLocations, v) == Some(<NfsFsLocations as XdrSerialize>::spec_emit(x))),
        v.file_system_locations is None ==> spec_attribute_emit(NfsAttribute::FileSystemLocations, v) is None,
        (v.file_system_locations_info matches Some(x) ==> spec_attribute_emit(NfsAttribute::FileSystemLocationsInfo, v) == Some(<NfsFsLocationsInfo as XdrSerialize>::spec_emit(x))),
        v.file_system_locations_info is None ==> spec_attribute_emit(NfsAttribute::FileSystemLocationsInfo, v) is None,
        (v.file_system_status matches Some(x) ==> spec_attribute_emit(NfsAttribute::FileSystemStatus, v) == Some(<NfsFsStatus as XdrSerialize>::spec_emit(x))),
        v.file_system_status is None ==> spec_attribute_emit(NfsAttribute::FileSystemStatus, v) is None,
        (v.hidden matches Some(x) ==> spec_attribute_emit(NfsAttribute::Hidden, v) == Some(<bool as XdrSerialize>::spec_emit(x))),
        v.hidden is None ==> spec_attribute_emit(NfsAttribute::Hidden, v) is None,
        (v.homogeneous matches Some(x) ==> spec_attribute_emit(NfsAttribute::Homogeneous, v) == Some(<bool as XdrSerialize>::spec_emit(x))),
        v.homogeneous is None ==> spec_attribute_emit(NfsAttribute::Homogeneous, v) is None,
        (v.layout_alignment matches Some(x) ==> spec_attribute_emit(NfsAttribute::LayoutAlignment, v) == Some(<u32 as XdrSerialize>::spec_emit(x))),
        v.layout_alignment is None ==> spec_attribute_emit(NfsAttribute::LayoutAlignment, v) is None,
        (v.layout_block_size matches Some(x) ==> spec_attribute_emit(NfsAttribute::LayoutBlockSize, v) == Some(<u32 as XdrSerialize>::spec_emit(x))),
        v.layout_block_size is None ==> spec_attribute_emit(NfsAttribute::LayoutBlockSize, v) is None,
        (v.layout_type matches Some(x) ==> spec_attribute_emit(NfsAttribute::LayoutType, v) == Some(spec_vec_emit::<NfsLayoutType>(x))),
        v.layout_type is None ==> spec_attribute_emit(NfsAttribute::LayoutType, v) is None,
        (v.max_file_size matches Some(x) ==> spec_attribute_emit(NfsAttribute::MaxFileSize, v) == Some(<u64 as XdrSerialize>::spec_emit(x))),
        v.max_file_size is None ==> spec_attribute_emit(NfsAttribute::MaxFileSize, v) is None,
        (v.max_links matches Some(x) ==> spec_attribute_emit(NfsAttribute::MaxLinks, v) == Some(<u32 as XdrSerialize>::spec_emit(x))),
        v.max_links is None ==> spec_attribute_emit(NfsAttribute::MaxLinks, v) is None,
        (v.max_name_length matches Some(x) ==> spec_attribute_emit(NfsAttribute::MaxNameLength, v) == Some(<u32 as XdrSerialize>::spec_emit(x))),
        v.max_name_length is None ==> spec_attribute_emit(NfsAttribute::MaxNameLength, v) is None,
        (v.max_read_length matches Some(x) ==> spec_attribute_emit(NfsAttribute::MaxReadLength, v) == Some(<u64 as XdrSerialize>::spec_emit(x))),
        v.max_read_length is None ==> spec_attribute_emit(NfsAttribute::MaxReadLength, v) is None,
        (v.max_write_length matches Some(x) ==> spec_attribute_emit(NfsAttribute::MaxWriteLength, v) == Some(<u64 as XdrSerialize>::spec_emit(x))),
        v.max_write_length is None ==> spec_attribute_emit(NfsAttribute::MaxWriteLength, v) is None,
        (v.mime_type matches Some(x) ==> spec_attribute_emit(NfsAttribute::MimeType, v) == Some(spec_opaque_emit(encode_utf8(x)))),
        v.mime_type is None ==> spec_attribute_emit(NfsAttribute::MimeType, v) is None,
        (v.mode matches Some(x) ==> spec_attribute_emit(NfsAttribute::Mode, v) == Some(<u32 as XdrSerialize>::spec_emit(x))),
        v.mode is None ==> spec_attribute_emit(NfsAttribute::Mode, v) is None,
        (v.mounted_on_file_id matches Some(x) ==> spec_attribute_emit(NfsAttribute::MountedOnFileId, v) == Some(<u64 as XdrSerialize>::spec_emit(x))),
        v.mounted_on_file_id is None ==> spec_attribute_emit(NfsAttribute::MountedOnFileId, v) is None,
        (v.no_truncation matches Some(x) ==> spec_attribute_emit(NfsAttribute::NoTruncation, v) == Some(<bool as XdrSerialize>::spec_emit(x))),
{
    reveal(spec_attribute_emit);
}

/// What answering an attribute writes, part 3: the value of the attribute is
/// that of its own field of the object (written as its type is written), an
/// optional attribute is left out where the object has no value for it, and
/// the attributes that are not answered are left out.
#[verifier::spinoff_prover]
#[verifier::rlimit(40)]
pub proof fn lemma_attribute_values_3(v: SpecNfsAttributes)
    ensures
        v.no_truncation is None ==> spec_attribute_emit(NfsAttribute::NoTruncation, v) is None,
        (v.num_links matches Some(x) ==> spec_attribute_emit(NfsAttribute::NumLinks, v) == Some(<u32 as XdrSerialize>::spec_emit(x))),
        v.num_links is None ==> spec_attribute_emit(NfsAttribute::NumLinks, v) is None,
        (v.owner matches Some(x) ==> spec_attribute_emit(NfsAttribute::Owner, v) == Some(spec_opaque_emit(encode_utf8(x)))),
        v.owner is None ==> spec_attribute_emit(NfsAttribute::Owner, v) is None,
        (v.owner_group matches Some(x) ==> spec_attribute_emit(NfsAttribute::OwnerGroup, v) == Some(spec_opaque_emit(encode_utf8(x)))),
        v.owner_group is None ==> spec_attribute_emit(NfsAttribute::OwnerGroup, v) is None,
        (v.quota_available_hard matches Some(x) ==> spec_attribute_emit(NfsAttribute::QuotaAvailableHard, v) == Some(<u64 as XdrSerialize>::spec_emit(x))),
        v.quota_available_hard is None ==> spec_attribute_emit(NfsAttribute::QuotaAvailableHard, v) is None,
        (v.quota_available_soft matches Some(x) ==> spec_attribute_emit(NfsAttribute::QuotaAvailableSoft, v) == Some(<u64 as XdrSerialize>::spec_emit(x))),
        v.quota_available_soft is None ==> spec_attribute_emit(NfsAttribute::QuotaAvailableSoft, v) is None,
        (v.quota_used matches Some(x) ==> spec_attribute_emit(NfsAttribute::QuotaUsed, v) == Some(<u64 as XdrSerialize>::spec_emit(x))),
        v.quota_used is None ==> spec_attribute_emit(NfsAttribute::QuotaUsed, v) is None,
        (v.raw_device matches Some(x) ==> spec_attribute_emit(NfsAttribute::RawDevice, v) == Some(<NfsSpecData as XdrSerialize>::spec_emit(x))),
        v.raw_device is None ==> spec_attribute_emit(NfsAttribute::RawDevice, v) is None,
        (v.sacl matches Some(x) ==> spec_attribute_emit(NfsAttribute::SAcl, v) == Some(spec_u32_emit(x.0).and_then(spec_vec_emit::<NfsAce>(x.1)))),
        v.sacl is None ==> spec_attribute_emit(NfsAttribute::SAcl, v) is None,
        (v.file_system_space_available matches Some(x) ==> spec_attribute_emit(NfsAttribute::FileSystemSpaceAvailable, v) == Some(<u64 as XdrSerialize>::spec_emit(x))),
        v.file_system_space_available is None ==> spec_attribute_emit(NfsAttribute::FileSystemSpaceAvailable, v) is None,
        (v.file_system_space_free matches Some(x) ==> spec_attribute_emit(NfsAttribute::FileSystemSpaceFree, v) == Some(<u64 as XdrSerialize>::spec_emit(x))),
        v.file_system_space_free is None ==> spec_attribute_emit(NfsAttribute::FileSystemSpaceFree, v) is None,
        (v.file_system_space_total matches Some(x) ==> spec_attribute_emit(NfsAttribute::FileSystemSpaceTotal, v) == Some(<u64 as XdrSerialize>::spec_emit(x))),
        v.file_system_space_total is None ==> spec_attribute_emit(NfsAttribute::FileSystemSpaceTotal, v) is None,
        (v.file_system_space_used matches Some(x) ==> spec_attribute_emit(NfsAttribute::FileSystemSpaceUsed, v) == Some(<u64 as XdrSerialize>::spec_emit(x))),
        v.file_system_space_used is None ==> spec_attribute_emit(NfsAttribute::FileSystemSpaceUsed, v) is None,
        (v.is_system_file matches Some(x) ==> spec_attribute_emit(NfsAttribute::IsSystemFile, v) == Some(<bool as XdrSerialize>::spec_emit(x))),
        v.is_system_file is None ==> spec_attribute_emit(NfsAttribute::IsSystemFile, v) is None,
        (v.time_access matches Some(x) ==> spec_attribute_emit(NfsAttribute::TimeAccess, v) == Some(<NfsTime as XdrSerialize>::spec_emit(x))),
        v.time_access is None ==> spec_attribute_emit(NfsAttribute::TimeAccess, v) is None,
        (v.time_backup matches Some(x) ==> spec_attribute_emit(NfsAttribute::TimeBackup, v) == Some(<NfsTime as XdrSerialize>::spec_emit(x))),
        v.time_backup is None ==> spec_attribute_emit(NfsAttribute::TimeBackup, v) is None,
        (v.time_create matches Some(x) ==> spec_attribute_emit(NfsAttribute::TimeCreate, v) == Some(<NfsTime as XdrSerialize>::spec_emit(x))),
        v.time_create is None ==> spec_attribute_emit(NfsAttribute::TimeCreate, v) is None,
        (v.time_delta matches Some(x) ==> spec_attribute_emit(NfsAttribute::TimeDelta, v) == Some(<NfsTime as XdrSerialize>::spec_emit(x))),
        v.time_delta is None ==> spec_attribute_emit(NfsAttribute::TimeDelta, v) is None,
        (v.time_metadata matches Some(x) ==> spec_attribute_emit(NfsAttribute::TimeMetadata, v) == Some(<NfsTime as XdrSerialize>::spec_emit(x))),
        v.time_metadata is None ==> spec_attribute_emit(NfsAttribute::TimeMetadata, v) is None,
        (v.time_modify matches Some(x) ==> spec_attribute_emit(NfsAttribute::TimeModify, v) == Some(<NfsTime as XdrSerialize>::spec_emit(x))),
        v.time_modify is None ==> spec_attribute_emit(NfsAttribute::TimeModify, v) is None,
        spec_attribute_emit(NfsAttribute::Illegal, v) is None,
{
    reveal(spec_attribute_emit);
}

/// What answering an attribute writes, part 4: the value of the attribute is
/// that of its own field of the object (written as its type is written), an
/// optional attribute is left out where the object has no value for it, and
/// the attributes that are not answered are left out.
#[verifier::spinoff_prover]
#[verifier::rlimit(40)]
pub proof fn lemma_attribute_values_4(v: SpecNfsAttributes)
    ensures
        spec_attribute_emit(NfsAttribute::LayoutHint, v) is None,
        spec_attribute_emit(NfsAttribute::MetadataServerSizeThreshold, v) is None,
        spec_attribute_emit(NfsAttribute::ModeSetMasked, v) is None,
        spec_attribute_emit(NfsAttribute::ReadAttributeError, v) is None,
        spec_attribute_emit(NfsAttribute::GetEventRetention, v) is None,
        spec_attribute_emit(NfsAttribute::SetEventRetention, v) is None,
        spec_attribute_emit(NfsAttribute::GetRetention, v) is None,
        spec_attribute_emit(NfsAttribute::SetRetention, v) is None,
        spec_attribute_emit(NfsAttribute::HoldRetention, v) is None,
        spec_attribute_emit(NfsAttribute::SetTimeAccess, v) is None,
        spec_attribute_emit(NfsAttribute::SetTimeModify, v) is None,
{
    reveal(spec_attribute_emit);
}

/// Answering a request for the one attribute `a`: where the object has no
/// value for it, nothing is answered; otherwise its bit alone is set in the
/// mask and its value alone is written, or writing it fails.
pub proof fn lemma_single_attribute_answer(a: NfsAttribute, v: SpecNfsAttributes)
    ensures
        spec_values_to_protocol(seq![a], v) == match spec_attribute_emit(a, v) {
            None => Ok(SpecFileAttrs { mask: spec_zero_words(3), attrs: Seq::empty() }),
            Some(Emit::Done(b)) => Ok(
                SpecFileAttrs { mask: spec_set_bit(spec_zero_words(3), a), attrs: b },
            ),
            Some(Emit::Fails(e, _)) => Err(e),
            Some(Emit::Panics) => Err(XdrError::Other),
        },
{
    let s = seq![a];
    assert(spec_sort_attributes(s) =~= s) by {
        assert(s.drop_last() =~= Seq::<NfsAttribute>::empty());
        assert(s.last() == a);
        assert(spec_sort_attributes(Seq::<NfsAttribute>::empty()) =~= Seq::<NfsAttribute>::empty());
        assert(spec_insert_attribute(Seq::empty(), a) =~= s);
    }
    assert(s.drop_last() =~= Seq::<NfsAttribute>::empty());
    let z = spec_values_fold(Seq::<NfsAttribute>::empty(), v);
    assert(z == (spec_zero_words(3), Emit::Done(Seq::empty())));
    assert(spec_values_fold(s, v) == match spec_attribute_emit(a, v) {
        Some(e) => (spec_set_bit(z.0, a), z.1.and_then(e)),
        None => z,
    });
    if let Some(Emit::Done(b)) = spec_attribute_emit(a, v) {
        assert(Seq::<u8>::empty() + b =~= b);
    }
    if let Some(Emit::Fails(e, b)) = spec_attribute_emit(a, v) {
        assert(Seq::<u8>::empty() + b =~= b);
    }
}

} // verus!

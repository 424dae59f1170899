//! The Internet checksum: the ones' complement of the ones' complement sum
//! of the 16-bit big-endian words of a packet.
//!
//! The sums themselves are computed by `pnet`; this module states what they
//! are and proves what the frame codec needs of them.

use vstd::prelude::*;

verus! {

/// The longest input the checksum routines are given: within it the 32-bit
/// accumulator of the sum cannot overflow.
pub const MAX_CHECKSUM_INPUT: usize = 65535;

/// The sum of the 16-bit big-endian words of `data`, leaving out the word
/// with index `skipword`. An odd last byte counts as the high byte of a word
/// of its own.
pub open spec fn word_sum(data: Seq<u8>, skipword: int) -> nat
    decreases data.len(),
{
    if data.len() == 0 {
        0
    } else if data.len() % 2 == 1 {
        word_sum(data.drop_last(), skipword) + if skipword == data.len() / 2 {
            0nat
        } else {
            data.last() as nat * 256
        }
    } else {
        let n = data.len() - 2;
        word_sum(data.subrange(0, n), skipword) + if skipword == n / 2 {
            0nat
        } else {
            data[n] as nat * 256 + data[n + 1] as nat
        }
    }
}

/// The value that the word with index `index` adds to the sum of `data`.
pub open spec fn word_at(data: Seq<u8>, index: int) -> nat {
    if 0 <= index && 2 * index + 1 < data.len() {
        data[2 * index] as nat * 256 + data[2 * index + 1] as nat
    } else if 0 <= index && 2 * index + 1 == data.len() {
        data[2 * index] as nat * 256
    } else {
        0
    }
}

/// `sum` with every carry out of the low 16 bits added back in.
pub open spec fn fold_carries(sum: nat) -> nat
    decreases sum,
{
    if sum < 0x10000 {
        sum
    } else {
        fold_carries(sum / 0x10000 + sum % 0x10000)
    }
}

/// The checksum that belongs to the word sum `sum`.
pub open spec fn ones_complement(sum: nat) -> u16 {
    (0xffff - fold_carries(sum)) as u16
}

/// The checksum of `data` with the word at `skipword` taken as zero. Of no
/// data at all it is zero.
pub open spec fn internet_checksum(data: Seq<u8>, skipword: int) -> u16 {
    if data.len() == 0 {
        0
    } else {
        ones_complement(word_sum(data, skipword))
    }
}

/// The checksum of all of `data`, no word left out.
pub open spec fn plain_checksum(data: Seq<u8>) -> u16 {
    internet_checksum(data, -1)
}

/// The two words of an IPv4 address, added up.
pub open spec fn address_sum(address: Seq<u8>) -> nat {
    (address[0] as nat * 256 + address[1] as nat) + (address[2] as nat * 256 + address[3] as nat)
}

/// The checksum of a transport segment carried over IPv4: over the
/// pseudo-header (both addresses, the protocol number and the length of
/// `data` and `extra` together), over `data` with the word at `skipword`
/// taken as zero, and over the whole words of `extra`.
pub open spec fn transport_checksum(
    data: Seq<u8>,
    skipword: int,
    extra: Seq<u8>,
    source: Seq<u8>,
    destination: Seq<u8>,
    protocol: u8,
) -> u16 {
    ones_complement(
        address_sum(source) + address_sum(destination) + protocol as nat + (data.len()
            + extra.len()) + word_sum(data, skipword) + word_sum(extra, extra.len() as int / 2),
    )
}

/// `pnet::util::checksum`: adds up the big-endian words of `data` but the
/// one at `skipword`, folds the carries and complements. The contract says
/// this word for word; the bound on the length keeps the sum, which `pnet`
/// holds in 32 bits, from overflowing.
#[verifier::external_body]
pub(crate) fn checksum(data: &[u8], skipword: usize) -> (sum: u16)
    requires
        data@.len() <= MAX_CHECKSUM_INPUT,
    ensures
        sum == internet_checksum(data@, skipword as int),
{
    pnet::util::checksum(data, skipword)
}

/// `pnet::util::ipv4_checksum`: the same sum, begun with the IPv4
/// pseudo-header: the words of both addresses, the protocol number, and the
/// length of `data` and `extra` together. `pnet` leaves out of `extra` the
/// word at half its length, so an odd last byte of it is not counted.
#[verifier::external_body]
pub(crate) fn ipv4_checksum(
    data: &[u8],
    skipword: usize,
    extra: &[u8],
    source: [u8; 4],
    destination: [u8; 4],
    protocol: u8,
) -> (sum: u16)
    requires
        data@.len() + extra@.len() <= MAX_CHECKSUM_INPUT,
    ensures
        sum == transport_checksum(
            data@,
            skipword as int,
            extra@,
            source@,
            destination@,
            protocol,
        ),
{
    pnet::util::ipv4_checksum(
        data,
        skipword,
        extra,
        &source.into(),
        &destination.into(),
        pnet::packet::ip::IpNextHeaderProtocol(protocol),
    )
}

/// Leaving a word out of the sum takes exactly its value away.
pub proof fn lemma_word_sum_skip(data: Seq<u8>, skipword: int)
    ensures
        word_sum(data, -1) == word_sum(data, skipword) + word_at(data, skipword),
    decreases data.len(),
{
    if data.len() == 0 {
    } else if data.len() % 2 == 1 {
        let rest = data.drop_last();
        lemma_word_sum_skip(rest, skipword);
        assert(word_at(rest, skipword) + (if skipword == data.len() / 2 {
            data.last() as nat * 256
        } else {
            0nat
        }) == word_at(data, skipword));
    } else {
        let n = data.len() - 2;
        let rest = data.subrange(0, n);
        lemma_word_sum_skip(rest, skipword);
        assert(word_at(rest, skipword) + (if skipword == n / 2 {
            data[n] as nat * 256 + data[n + 1] as nat
        } else {
            0nat
        }) == word_at(data, skipword));
    }
}

/// A word that is zero may as well be left out: the checksum over data
/// whose checksum field holds zero is the checksum that skips the field.
pub proof fn lemma_checksum_of_zeroed_field(data: Seq<u8>, field: int)
    requires
        0 <= field,
        2 * field + 1 < data.len(),
        data[2 * field] == 0,
        data[2 * field + 1] == 0,
    ensures
        plain_checksum(data) == internet_checksum(data, field),
{
    lemma_word_sum_skip(data, field);
}

/// What stands in the skipped word does not matter to the checksum.
pub proof fn lemma_checksum_ignores_field(data: Seq<u8>, field: int, high: u8, low: u8)
    requires
        0 <= field,
        2 * field + 1 < data.len(),
    ensures
        internet_checksum(data.update(2 * field, high).update(2 * field + 1, low), field)
            == internet_checksum(data, field),
{
    lemma_word_sum_ignores_field(data, field, high, low);
}

/// What stands in the skipped word does not matter to the checksum of a
/// transport segment either.
pub proof fn lemma_transport_checksum_ignores_field(
    data: Seq<u8>,
    field: int,
    high: u8,
    low: u8,
    extra: Seq<u8>,
    source: Seq<u8>,
    destination: Seq<u8>,
    protocol: u8,
)
    requires
        0 <= field,
        2 * field + 1 < data.len(),
    ensures
        transport_checksum(
            data.update(2 * field, high).update(2 * field + 1, low),
            field,
            extra,
            source,
            destination,
            protocol,
        ) == transport_checksum(data, field, extra, source, destination, protocol),
{
    lemma_word_sum_ignores_field(data, field, high, low);
}

proof fn lemma_word_sum_ignores_field(data: Seq<u8>, field: int, high: u8, low: u8)
    requires
        0 <= field,
        2 * field + 1 < data.len(),
    ensures
        word_sum(data.update(2 * field, high).update(2 * field + 1, low), field) == word_sum(
            data,
            field,
        ),
    decreases data.len(),
{
    let changed = data.update(2 * field, high).update(2 * field + 1, low);
    if data.len() % 2 == 1 {
        let rest = data.drop_last();
        assert(changed.drop_last() =~= rest.update(2 * field, high).update(2 * field + 1, low));
        lemma_word_sum_ignores_field(rest, field, high, low);
    } else {
        let n = data.len() - 2;
        let rest = data.subrange(0, n);
        if field == n / 2 {
            assert(changed.subrange(0, n) =~= rest);
        } else {
            assert(changed.subrange(0, n) =~= rest.update(2 * field, high).update(
                2 * field + 1,
                low,
            ));
            lemma_word_sum_ignores_field(rest, field, high, low);
        }
    }
}

} // verus!

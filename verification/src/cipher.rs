//! The stream cipher of the audio payload: a key schedule that builds a
//! 256-entry table once per file, and a keystream that reads the table
//! without ever changing it.

use vstd::prelude::*;
use crate::constants::{CHUNK_LEN, TABLE_LEN};

verus! {

/// The table before the key schedule has run: entry `i` holds `i`.
pub open spec fn identity_table() -> Seq<usize> {
    Seq::new(TABLE_LEN as nat, |i: int| i as usize)
}

/// `table` with the entries at `i` and `j` exchanged.
pub open spec fn swap_entries(table: Seq<usize>, i: int, j: int) -> Seq<usize> {
    table.update(i, table[j]).update(j, table[i])
}

/// The table and the running index `j` after the first `rounds` rounds of
/// the key schedule under `key`.
pub open spec fn schedule_state(key: Seq<u8>, rounds: nat) -> (Seq<usize>, int)
    decreases rounds,
{
    if rounds == 0 {
        (identity_table(), 0)
    } else {
        let (table, j) = schedule_state(key, (rounds - 1) as nat);
        let i = rounds - 1;
        let next = (j + table[i] + key[i % (key.len() as int)]) % (TABLE_LEN as int);
        (swap_entries(table, i, next), next)
    }
}

/// The table that the key schedule builds from `key`.
pub open spec fn scheduled_table(key: Seq<u8>) -> Seq<usize> {
    schedule_state(key, TABLE_LEN as nat).0
}

/// Every entry of `table` is an index into it.
pub open spec fn entries_in_range(table: Seq<usize>) -> bool {
    &&& table.len() == TABLE_LEN
    &&& forall|i: int| 0 <= i < TABLE_LEN ==> #[trigger] table[i] < TABLE_LEN
}

/// `table` holds each of `0..256` exactly once.
pub open spec fn is_permutation(table: Seq<usize>) -> bool {
    &&& entries_in_range(table)
    &&& forall|i: int, j: int|
        0 <= i < j < TABLE_LEN ==> #[trigger] table[i] != #[trigger] table[j]
}

/// The keystream byte at offset `k` of a chunk. It reads `table` and depends
/// on `k` only through `k mod 256`.
pub open spec fn keystream_byte(table: Seq<usize>, k: int) -> u8 {
    let n = TABLE_LEN as int;
    let i = (k + 1) % n;
    let j = (table[i] + i) % n;
    table[(table[i] + table[j]) % n] as u8
}

/// `data` with its first `len` bytes XOR-ed with the keystream, the offset
/// counted from the start of `data`.
pub open spec fn xor_chunk(table: Seq<usize>, data: Seq<u8>, len: int) -> Seq<u8> {
    Seq::new(data.len(), |k: int| if k < len { data[k] ^ keystream_byte(table, k) } else { data[k] })
}

/// A whole payload run through the cipher in chunks of `CHUNK_LEN` bytes:
/// the offset that drives the keystream starts again at every chunk.
pub open spec fn xor_payload(table: Seq<usize>, data: Seq<u8>) -> Seq<u8> {
    Seq::new(data.len(), |p: int| data[p] ^ keystream_byte(table, p % (CHUNK_LEN as int)))
}

/// The stream cipher's state: the table, fixed once the key schedule has run.
pub struct CR4 {
    trunk: [usize; 256],
}

impl CR4 {
    /// The table as a sequence.
    pub closed spec fn table(&self) -> Seq<usize> {
        self.trunk@
    }

    /// The table's entries are indices into it.
    pub open spec fn wf(&self) -> bool {
        entries_in_range(self.table())
    }

    /// A cipher whose table is all zero, to be keyed with `ksa`.
    pub fn new() -> (cipher: CR4)
        ensures
            cipher.wf(),
            cipher.table() == Seq::new(TABLE_LEN as nat, |i: int| 0usize),
    {
        let cipher = CR4 { trunk: [0; 256] };
        cipher
    }

    /// The table's entries.
    pub fn trunk(&self) -> (entries: [usize; 256])
        ensures
            entries@ == self.table(),
    {
        self.trunk
    }

    /// Runs the key schedule: whatever the table held, it is afterwards the
    /// table that `key` alone determines.
    pub fn ksa(&mut self, key: Vec<u8>)
        requires
            key@.len() >= 1,
        ensures
            final(self).table() == scheduled_table(key@),
            final(self).wf(),
            is_permutation(final(self).table()),
    {
        let len: usize = key.len();
        let mut i: usize = 0;
        while i < TABLE_LEN
            invariant
                0 <= i <= TABLE_LEN,
                forall|m: int| 0 <= m < i ==> self.trunk@[m] == m as usize,
            decreases TABLE_LEN - i,
        {
            self.trunk[i] = i;
            i += 1;
        }
        assert(self.trunk@ =~= identity_table());
        let mut j: usize = 0;
        let mut i: usize = 0;
        while i < TABLE_LEN
            invariant
                0 <= i <= TABLE_LEN,
                j < TABLE_LEN,
                len == key@.len(),
                len >= 1,
                is_permutation(self.trunk@),
                schedule_state(key@, i as nat) == (self.trunk@, j as int),
            decreases TABLE_LEN - i,
        {
            let ghost before = self.trunk@;
            j = (j + self.trunk[i] + key[i % len] as usize) % TABLE_LEN;
            let held: usize = self.trunk[i];
            self.trunk[i] = self.trunk[j];
            self.trunk[j] = held;
            assert(self.trunk@ =~= swap_entries(before, i as int, j as int));
            i += 1;
        }
    }

    /// XORs the first `len` bytes of `data` with the keystream. The table is
    /// only read: the same offset gives the same keystream byte in every call.
    pub fn prga(&self, data: &mut [u8; 0x8000], len: usize)
        requires
            self.wf(),
            len <= CHUNK_LEN,
        ensures
            final(data)@ == xor_chunk(self.table(), old(data)@, len as int),
    {
        let mut k: usize = 0;
        while k < len
            invariant
                0 <= k <= len <= CHUNK_LEN,
                self.wf(),
                forall|m: int|
                    0 <= m < k ==> data@[m] == old(data)@[m] ^ keystream_byte(self.trunk@, m),
                forall|m: int| k <= m < CHUNK_LEN ==> data@[m] == old(data)@[m],
            decreases len - k,
        {
            let i: usize = (k + 1) % TABLE_LEN;
            let j: usize = (self.trunk[i] + i) % TABLE_LEN;
            let stream: u8 = self.trunk[(self.trunk[i] + self.trunk[j]) % TABLE_LEN] as u8;
            data[k] = data[k] ^ stream;
            k += 1;
        }
        assert(data@ =~= xor_chunk(self.table(), old(data)@, len as int));
    }
}

/// Decrypts a whole audio payload under the session key `cr4_key`: the key
/// schedule runs once, then the payload goes through the keystream chunk by
/// chunk, the offset starting again at every chunk.
pub fn music_data(input: &[u8], cr4_key: Vec<u8>) -> (output: Vec<u8>)
    requires
        cr4_key@.len() >= 1,
    ensures
        output@ == xor_payload(scheduled_table(cr4_key@), input@),
{
    let mut cr4 = CR4::new();
    cr4.ksa(cr4_key);
    let total: usize = input.len();
    let mut output: Vec<u8> = Vec::new();
    let mut buffer: [u8; 0x8000] = [0u8; 0x8000];
    let mut pos: usize = 0;
    while pos < total
        invariant
            total == input@.len(),
            pos <= total,
            pos == total || pos % CHUNK_LEN == 0,
            cr4.wf(),
            cr4.table() == scheduled_table(cr4_key@),
            output@.len() == pos,
            forall|p: int|
                0 <= p < pos ==> output@[p] == input@[p] ^ keystream_byte(
                    cr4.table(),
                    p % (CHUNK_LEN as int),
                ),
        decreases total - pos,
    {
        let remaining: usize = total - pos;
        let len: usize = if remaining < CHUNK_LEN { remaining } else { CHUNK_LEN };
        let mut k: usize = 0;
        while k < len
            invariant
                k <= len <= CHUNK_LEN,
                pos + len <= total,
                total == input@.len(),
                forall|m: int| 0 <= m < k ==> buffer@[m] == input@[pos + m],
            decreases len - k,
        {
            buffer[k] = input[pos + k];
            k += 1;
        }
        cr4.prga(&mut buffer, len);
        let mut k: usize = 0;
        while k < len
            invariant
                k <= len <= CHUNK_LEN,
                pos + len <= total,
                pos % CHUNK_LEN == 0,
                total == input@.len(),
                output@.len() == pos + k,
                forall|m: int|
                    0 <= m < len ==> buffer@[m] == input@[pos + m] ^ keystream_byte(cr4.table(), m),
                forall|p: int|
                    0 <= p < pos + k ==> output@[p] == input@[p] ^ keystream_byte(
                        cr4.table(),
                        p % (CHUNK_LEN as int),
                    ),
            decreases len - k,
        {
            assert((pos + k) % 0x8000 == k as int);
            output.push(buffer[k]);
            k += 1;
        }
        pos += len;
    }
    assert(output@ =~= xor_payload(scheduled_table(cr4_key@), input@));
    output
}

/// XOR with one byte is undone by XOR with the same byte.
pub proof fn lemma_xor_twice(a: u8, b: u8)
    ensures
        (a ^ b) ^ b == a,
{
    assert((a ^ b) ^ b == a) by (bit_vector);
}

/// The keystream has period `TABLE_LEN`: the byte at offset `k` of a chunk
/// is the byte at offset `k + TABLE_LEN * m`.
pub proof fn lemma_keystream_period(table: Seq<usize>, k: int, m: int)
    requires
        0 <= k,
        0 <= m,
    ensures
        keystream_byte(table, k) == keystream_byte(table, k + TABLE_LEN * m),
{
    assert(TABLE_LEN * m == 256 * m);
    assert((k + 256 * m + 1) % 256 == (k + 1) % 256);
}

/// The keystream does not depend on the chunk: the byte of a payload at
/// offset `k` of chunk number `chunk` is XOR-ed with the keystream byte at
/// `k`, whatever `chunk` is.
pub proof fn lemma_keystream_chunk_local(table: Seq<usize>, data: Seq<u8>, chunk: int, k: int)
    requires
        0 <= chunk,
        0 <= k < CHUNK_LEN,
        chunk * CHUNK_LEN + k < data.len(),
    ensures
        xor_payload(table, data)[chunk * CHUNK_LEN + k] == data[chunk * CHUNK_LEN + k]
            ^ keystream_byte(table, k),
{
    assert(chunk * CHUNK_LEN == chunk * 0x8000);
    assert((chunk * 0x8000 + k) % 0x8000 == k);
}

/// A payload cut at a chunk boundary decrypts piece by piece: the pieces'
/// results, put together, are the result of the whole.
pub proof fn lemma_payload_splits_at_chunk(table: Seq<usize>, data: Seq<u8>, cut: int)
    requires
        0 <= cut <= data.len(),
        cut % (CHUNK_LEN as int) == 0,
    ensures
        xor_payload(table, data) == xor_payload(table, data.take(cut)) + xor_payload(
            table,
            data.skip(cut),
        ),
{
    let whole = xor_payload(table, data);
    let parts = xor_payload(table, data.take(cut)) + xor_payload(table, data.skip(cut));
    assert forall|p: int| 0 <= p < whole.len() implies whole[p] == parts[p] by {
        if p >= cut {
            assert((p - cut) % 0x8000 == p % 0x8000);
        }
    }
    assert(whole =~= parts);
}

/// A payload that fits into one chunk is decrypted as that chunk.
pub proof fn lemma_single_chunk_payload(table: Seq<usize>, data: Seq<u8>)
    requires
        data.len() <= CHUNK_LEN,
    ensures
        xor_payload(table, data) == xor_chunk(table, data, data.len() as int),
{
}

/// Running a chunk through the cipher twice, with the same table and the
/// same length, gives the chunk back.
pub proof fn lemma_chunk_round_trip(table: Seq<usize>, data: Seq<u8>, len: int)
    ensures
        xor_chunk(table, xor_chunk(table, data, len), len) == data,
{
    let once = xor_chunk(table, data, len);
    let twice = xor_chunk(table, once, len);
    assert forall|k: int| 0 <= k < data.len() implies twice[k] == data[k] by {
        lemma_xor_twice(data[k], keystream_byte(table, k));
    }
    assert(twice =~= data);
}

/// Running a payload through the cipher twice with the same table gives the
/// payload back.
pub proof fn lemma_payload_round_trip(table: Seq<usize>, data: Seq<u8>)
    ensures
        xor_payload(table, xor_payload(table, data)) == data,
{
    let once = xor_payload(table, data);
    let twice = xor_payload(table, once);
    assert forall|p: int| 0 <= p < data.len() implies twice[p] == data[p] by {
        lemma_xor_twice(data[p], keystream_byte(table, p % (CHUNK_LEN as int)));
    }
    assert(twice =~= data);
}

/// The key schedule keeps the table a permutation: it only exchanges entries.
pub proof fn lemma_schedule_is_permutation(key: Seq<u8>, rounds: nat)
    requires
        key.len() >= 1,
        rounds <= TABLE_LEN,
    ensures
        is_permutation(schedule_state(key, rounds).0),
        0 <= schedule_state(key, rounds).1 < TABLE_LEN,
    decreases rounds,
{
    if rounds > 0 {
        lemma_schedule_is_permutation(key, (rounds - 1) as nat);
    }
}

} // verus!

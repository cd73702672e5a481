//! Uniform blocks: fixed-size byte regions that GPU programs read at agreed
//! binding points, and the byte layout of each.
//!
//! A block keeps the host's image of the region. Writes change that image and
//! nothing else; the shell uploads it. Every multi-byte field is stored least
//! significant byte first. A component that the programs read as a
//! single-precision number is carried as its 32-bit pattern.

use vstd::prelude::*;

verus! {

/// Binding point of the camera block.
pub const CAMERA_BINDING: u32 = 1;

/// Binding point of the accretion-disk block.
pub const DISK_BINDING: u32 = 2;

/// Binding point of the objects block.
pub const OBJECTS_BINDING: u32 = 3;

/// Bytes in one scalar field, and the alignment every write must respect.
pub const WORD_BYTES: usize = 4;

/// Bytes in one four-component vector.
pub const VECTOR_BYTES: usize = 4 * WORD_BYTES;

/// Capacity of the camera block.
pub const CAMERA_BLOCK_BYTES: usize = 128;

/// Capacity of the disk block: three scalar parameters and one word of padding.
pub const DISK_BLOCK_BYTES: usize = 4 * WORD_BYTES;

/// Most object records the objects block can hold.
pub const MAX_OBJECTS: usize = 16;

/// Bytes before the first record of the objects block: the count, padded out
/// to the alignment of a vector.
pub const OBJECTS_HEADER_BYTES: usize = VECTOR_BYTES;

/// Bytes of the vector part of one object record: position with radius, then
/// colour.
pub const OBJECT_RECORD_BYTES: usize = 2 * VECTOR_BYTES;

/// Offset of the first mass scalar in the objects block.
pub const OBJECTS_MASS_OFFSET: usize = OBJECTS_HEADER_BYTES + MAX_OBJECTS * OBJECT_RECORD_BYTES;

/// Capacity of the objects block.
pub const OBJECTS_BLOCK_BYTES: usize = OBJECTS_MASS_OFFSET + MAX_OBJECTS * WORD_BYTES;

/// Why a write to a uniform block was refused.
#[derive(Clone, Copy, Debug, PartialEq, Eq, Structural)]
pub enum LayoutError {
    /// The write would run past the end of the block.
    OutOfBounds,
    /// The offset is not a multiple of the word size.
    Misaligned,
    /// More records, or a larger count, than the block has room for.
    TooManyObjects,
    /// The block does not have the capacity that the layout calls for.
    LayoutMismatch,
}

/// One object of the scene as the programs read it.
#[derive(Clone, Copy, Debug, PartialEq, Eq, Structural)]
pub struct ObjectRecord {
    /// Position along the first axis.
    pub x: u32,
    /// Position along the second axis.
    pub y: u32,
    /// Position along the third axis.
    pub z: u32,
    /// Radius.
    pub radius: u32,
    /// Red component of the colour.
    pub red: u32,
    /// Green component of the colour.
    pub green: u32,
    /// Blue component of the colour.
    pub blue: u32,
    /// Opacity of the colour.
    pub alpha: u32,
    /// Mass.
    pub mass: u32,
}

impl ObjectRecord {
    /// Word `index` of the vector part: position, radius, then colour.
    pub open spec fn vector_word(self, index: int) -> u32 {
        if index == 0 {
            self.x
        } else if index == 1 {
            self.y
        } else if index == 2 {
            self.z
        } else if index == 3 {
            self.radius
        } else if index == 4 {
            self.red
        } else if index == 5 {
            self.green
        } else if index == 6 {
            self.blue
        } else {
            self.alpha
        }
    }
}

/// What a uniform block is: where it is bound and what it holds.
pub struct BlockView {
    pub binding: int,
    pub bytes: Seq<u8>,
}

/// A fixed-capacity byte region bound at an integer binding point.
#[derive(Debug)]
pub struct UniformBlock {
    binding: u32,
    bytes: Vec<u8>,
}

/// Byte `index` (0 is the least significant) of `word`.
pub open spec fn word_byte(word: u32, index: int) -> u8 {
    if index == 0 {
        (word % 0x100) as u8
    } else if index == 1 {
        (word / 0x100 % 0x100) as u8
    } else if index == 2 {
        (word / 0x1_0000 % 0x100) as u8
    } else {
        (word / 0x100_0000 % 0x100) as u8
    }
}

/// The four bytes of `word` in storage order.
pub open spec fn word_bytes(word: u32) -> Seq<u8> {
    Seq::new(4, |i: int| word_byte(word, i))
}

/// The word stored at `offset` in `bytes`.
pub open spec fn word_at(bytes: Seq<u8>, offset: int) -> int {
    bytes[offset] + 0x100 * bytes[offset + 1] + 0x1_0000 * bytes[offset + 2] + 0x100_0000
        * bytes[offset + 3]
}

/// `bytes` with `data` laid over it from `offset` on.
pub open spec fn overwritten(bytes: Seq<u8>, offset: int, data: Seq<u8>) -> Seq<u8> {
    Seq::new(
        bytes.len(),
        |i: int|
            if offset <= i < offset + data.len() {
                data[i - offset]
            } else {
                bytes[i]
            },
    )
}

/// Byte `index` of the objects block after `count` and `records` have been
/// written over `before`.
///
/// The count occupies the first word. Record `k` has its position and radius
/// at `16 + 32 k`, its colour sixteen bytes further on, and its mass at
/// `528 + 4 k`. The padding after the count and the slots of records that were
/// not given keep what they held.
pub open spec fn objects_byte(
    before: Seq<u8>,
    count: u32,
    records: Seq<ObjectRecord>,
    index: int,
) -> u8 {
    let in_records = index - OBJECTS_HEADER_BYTES;
    let in_masses = index - OBJECTS_MASS_OFFSET;
    if 0 <= index < WORD_BYTES {
        word_byte(count, index)
    } else if OBJECTS_HEADER_BYTES <= index < OBJECTS_MASS_OFFSET && in_records
        / (OBJECT_RECORD_BYTES as int) < records.len() {
        let record = records[in_records / (OBJECT_RECORD_BYTES as int)];
        let in_record = in_records % (OBJECT_RECORD_BYTES as int);
        word_byte(record.vector_word(in_record / 4), in_record % 4)
    } else if OBJECTS_MASS_OFFSET <= index < OBJECTS_BLOCK_BYTES && in_masses / 4
        < records.len() {
        word_byte(records[in_masses / 4].mass, in_masses % 4)
    } else {
        before[index]
    }
}

/// The objects block after `count` and `records` have been written over
/// `before`.
pub open spec fn objects_image(before: Seq<u8>, count: u32, records: Seq<ObjectRecord>) -> Seq<
    u8,
> {
    Seq::new(before.len(), |i: int| objects_byte(before, count, records, i))
}

/// Offset of the vector part of the record in slot `slot`.
pub open spec fn record_offset(slot: int) -> int {
    OBJECTS_HEADER_BYTES + slot * OBJECT_RECORD_BYTES
}

/// Offset of the mass of the record in slot `slot`.
pub open spec fn mass_offset(slot: int) -> int {
    OBJECTS_MASS_OFFSET + slot * WORD_BYTES
}

/// The objects block `before` with `record` stored in slot `slot`.
pub open spec fn record_stored(before: Seq<u8>, slot: int, record: ObjectRecord) -> Seq<u8> {
    Seq::new(
        before.len(),
        |i: int|
            if record_offset(slot) <= i < record_offset(slot) + OBJECT_RECORD_BYTES {
                word_byte(
                    record.vector_word((i - record_offset(slot)) / 4),
                    (i - record_offset(slot)) % 4,
                )
            } else if mass_offset(slot) <= i < mass_offset(slot) + WORD_BYTES {
                word_byte(record.mass, i - mass_offset(slot))
            } else {
                before[i]
            },
    )
}

impl View for UniformBlock {
    type V = BlockView;

    closed spec fn view(&self) -> BlockView {
        BlockView { binding: self.binding as int, bytes: self.bytes@ }
    }
}

impl UniformBlock {
    /// Reserves a zero-filled region of exactly `capacity` bytes for the
    /// binding point `binding`.
    pub fn allocate(binding: u32, capacity: usize) -> (block: UniformBlock)
        ensures
            block@.binding == binding,
            block@.bytes == Seq::new(capacity as nat, |i: int| 0u8),
    {
        let mut bytes: Vec<u8> = Vec::new();
        let mut filled: usize = 0;
        while filled < capacity
            invariant
                filled <= capacity,
                bytes@ == Seq::new(filled as nat, |i: int| 0u8),
            decreases capacity - filled,
        {
            bytes.push(0u8);
            filled += 1;
        }
        UniformBlock { binding, bytes }
    }

    /// The binding point the block was allocated for.
    pub fn binding(&self) -> (binding: u32)
        ensures
            binding == self@.binding,
    {
        self.binding
    }

    /// The number of bytes the block holds.
    pub fn capacity(&self) -> (capacity: usize)
        ensures
            capacity == self@.bytes.len(),
    {
        self.bytes.len()
    }

    /// The block's current contents, for upload.
    pub fn bytes(&self) -> (bytes: &Vec<u8>)
        ensures
            bytes@ == self@.bytes,
    {
        &self.bytes
    }

    /// Overwrites the bytes from `offset` on with `data`.
    ///
    /// The caller answers for the range and the alignment; `try_write` checks
    /// both instead.
    pub fn write(&mut self, offset: usize, data: &[u8])
        requires
            offset + data@.len() <= old(self)@.bytes.len(),
            offset % WORD_BYTES == 0,
        ensures
            final(self)@.binding == old(self)@.binding,
            final(self)@.bytes == overwritten(old(self)@.bytes, offset as int, data@),
    {
        let ghost before = self.bytes@;
        let mut done: usize = 0;
        while done < data.len()
            invariant
                done <= data@.len(),
                offset + data@.len() <= self.bytes.len(),
                self.bytes.len() == before.len(),
                self.binding == old(self).binding,
                self.bytes@ == overwritten(before, offset as int, data@.take(done as int)),
            decreases data@.len() - done,
        {
            self.bytes.set(offset + done, data[done]);
            done += 1;
        }
        assert(data@.take(data@.len() as int) == data@);
    }

    /// Overwrites the bytes from `offset` on with `data`, or refuses and leaves
    /// the block as it was.
    ///
    /// A misaligned offset is reported before a range that does not fit.
    pub fn try_write(&mut self, offset: usize, data: &[u8]) -> (outcome: Result<(), LayoutError>)
        ensures
            final(self)@.binding == old(self)@.binding,
            offset % WORD_BYTES != 0 ==> outcome == Err::<(), LayoutError>(LayoutError::Misaligned)
                && final(self)@ == old(self)@,
            offset % WORD_BYTES == 0 && offset + data@.len() > old(self)@.bytes.len() ==> outcome
                == Err::<(), LayoutError>(LayoutError::OutOfBounds) && final(self)@ == old(self)@,
            offset % WORD_BYTES == 0 && offset + data@.len() <= old(self)@.bytes.len() ==> outcome
                == Ok::<(), LayoutError>(()) && final(self)@.bytes == overwritten(
                old(self)@.bytes,
                offset as int,
                data@,
            ),
    {
        if offset % WORD_BYTES != 0 {
            return Err(LayoutError::Misaligned);
        }
        if offset > self.bytes.len() || data.len() > self.bytes.len() - offset {
            return Err(LayoutError::OutOfBounds);
        }
        self.write(offset, data);
        Ok(())
    }

    /// Stores `word` at `offset`, least significant byte first.
    pub fn write_word(&mut self, offset: usize, word: u32)
        requires
            offset + WORD_BYTES <= old(self)@.bytes.len(),
            offset % WORD_BYTES == 0,
        ensures
            final(self)@.binding == old(self)@.binding,
            final(self)@.bytes == overwritten(old(self)@.bytes, offset as int, word_bytes(word)),
    {
        let bytes: [u8; 4] = [
            (word % 0x100) as u8,
            (word / 0x100 % 0x100) as u8,
            (word / 0x1_0000 % 0x100) as u8,
            (word / 0x100_0000 % 0x100) as u8,
        ];
        assert(bytes@ =~= word_bytes(word));
        self.write(offset, &bytes);
    }

    /// Stores `record` in slot `slot` of the objects block.
    fn write_record(&mut self, slot: usize, record: &ObjectRecord)
        requires
            old(self)@.bytes.len() == OBJECTS_BLOCK_BYTES,
            slot < MAX_OBJECTS,
        ensures
            final(self)@.binding == old(self)@.binding,
            final(self)@.bytes == record_stored(old(self)@.bytes, slot as int, *record),
    {
        let base: usize = OBJECTS_HEADER_BYTES + slot * OBJECT_RECORD_BYTES;
        self.write_word(base, record.x);
        self.write_word(base + 4, record.y);
        self.write_word(base + 8, record.z);
        self.write_word(base + 12, record.radius);
        self.write_word(base + 16, record.red);
        self.write_word(base + 20, record.green);
        self.write_word(base + 24, record.blue);
        self.write_word(base + 28, record.alpha);
        self.write_word(OBJECTS_MASS_OFFSET + slot * WORD_BYTES, record.mass);
        assert(self.bytes@ =~= record_stored(old(self).bytes@, slot as int, *record));
    }

    /// Writes the object count and the records into the objects block.
    ///
    /// The block must have the capacity of the objects layout, and neither
    /// `count` nor the number of records may exceed the sixteen slots;
    /// otherwise the write is refused and the block is left as it was. A wrong
    /// capacity is reported before an excess of objects.
    pub fn write_objects(&mut self, count: u32, records: &[ObjectRecord]) -> (outcome: Result<
        (),
        LayoutError,
    >)
        ensures
            final(self)@.binding == old(self)@.binding,
            old(self)@.bytes.len() != OBJECTS_BLOCK_BYTES ==> outcome == Err::<(), LayoutError>(
                LayoutError::LayoutMismatch,
            ) && final(self)@ == old(self)@,
            old(self)@.bytes.len() == OBJECTS_BLOCK_BYTES && (count > MAX_OBJECTS || records@.len()
                > MAX_OBJECTS) ==> outcome == Err::<(), LayoutError>(LayoutError::TooManyObjects)
                && final(self)@ == old(self)@,
            old(self)@.bytes.len() == OBJECTS_BLOCK_BYTES && count <= MAX_OBJECTS && records@.len()
                <= MAX_OBJECTS ==> outcome == Ok::<(), LayoutError>(()) && final(self)@.bytes
                == objects_image(old(self)@.bytes, count, records@),
    {
        if self.bytes.len() != OBJECTS_BLOCK_BYTES {
            return Err(LayoutError::LayoutMismatch);
        }
        if count as usize > MAX_OBJECTS || records.len() > MAX_OBJECTS {
            return Err(LayoutError::TooManyObjects);
        }
        let ghost before = self.bytes@;
        self.write_word(0, count);
        assert(self.bytes@ =~= objects_image(before, count, records@.take(0)));
        let mut slot: usize = 0;
        while slot < records.len()
            invariant
                slot <= records@.len() <= MAX_OBJECTS,
                before.len() == OBJECTS_BLOCK_BYTES,
                self.binding == old(self).binding,
                self.bytes@ == objects_image(before, count, records@.take(slot as int)),
            decreases records@.len() - slot,
        {
            self.write_record(slot, &records[slot]);
            assert(self.bytes@ =~= objects_image(before, count, records@.take(slot + 1))) by {
                lemma_store_extends_image(before, count, records@, slot as int);
            }
            slot += 1;
        }
        assert(records@.take(records@.len() as int) == records@);
        Ok(())
    }
}

/// Storing record `slot` over the image of the first `slot` records gives the
/// image of the first `slot + 1` records.
proof fn lemma_store_extends_image(
    before: Seq<u8>,
    count: u32,
    records: Seq<ObjectRecord>,
    slot: int,
)
    requires
        before.len() == OBJECTS_BLOCK_BYTES,
        0 <= slot < records.len() <= MAX_OBJECTS,
    ensures
        record_stored(objects_image(before, count, records.take(slot)), slot, records[slot])
            == objects_image(before, count, records.take(slot + 1)),
{
    let earlier = objects_image(before, count, records.take(slot));
    let stored = record_stored(earlier, slot, records[slot]);
    let later = objects_image(before, count, records.take(slot + 1));
    assert(OBJECTS_HEADER_BYTES == 16 && OBJECT_RECORD_BYTES == 32 && OBJECTS_MASS_OFFSET == 528
        && OBJECTS_BLOCK_BYTES == 592 && WORD_BYTES == 4 && MAX_OBJECTS == 16);
    lemma_offsets(slot);
    let shorter = records.take(slot);
    let longer = records.take(slot + 1);
    assert(longer[slot] == records[slot]);
    assert forall|k: int| 0 <= k < slot implies shorter[k] == longer[k] by {}
    assert forall|i: int| 0 <= i < before.len() implies stored[i] == later[i] by {
        if 16 <= i < 528 {
            let k = (i - 16) / 32;
            let r = (i - 16) % 32;
            assert(i - 16 == 32 * k + r && 0 <= r < 32);
            if k < slot {
                assert(shorter[k] == longer[k]);
                assert(earlier[i] == later[i]);
            } else if k == slot {
                assert(record_offset(slot) <= i < record_offset(slot) + 32);
                assert(i - record_offset(slot) == r);
            } else {
                assert(earlier[i] == before[i]);
            }
        } else if 528 <= i {
            let k = (i - 528) / 4;
            let r = (i - 528) % 4;
            assert(i - 528 == 4 * k + r && 0 <= r < 4);
            if k < slot {
                assert(shorter[k] == longer[k]);
                assert(earlier[i] == later[i]);
            } else if k == slot {
                assert(mass_offset(slot) <= i < mass_offset(slot) + 4);
                assert(i - mass_offset(slot) == r);
            } else {
                assert(earlier[i] == before[i]);
            }
        } else {
            assert(earlier[i] == later[i]);
        }
    }
    assert(stored =~= later);
}

/// A word that was stored reads back, wherever in the block it was put.
pub proof fn lemma_word_reads_back(bytes: Seq<u8>, offset: int, word: u32)
    requires
        0 <= offset,
        offset + WORD_BYTES <= bytes.len(),
    ensures
        word_at(overwritten(bytes, offset, word_bytes(word)), offset) == word,
{
    let stored = overwritten(bytes, offset, word_bytes(word));
    assert(stored[offset] == word_byte(word, 0));
    assert(stored[offset + 1] == word_byte(word, 1));
    assert(stored[offset + 2] == word_byte(word, 2));
    assert(stored[offset + 3] == word_byte(word, 3));
}

/// A write changes the bytes it covers and no others, and never the size of
/// the block.
pub proof fn lemma_write_is_local(bytes: Seq<u8>, offset: int, data: Seq<u8>, index: int)
    requires
        0 <= index < bytes.len(),
    ensures
        overwritten(bytes, offset, data).len() == bytes.len(),
        offset <= index < offset + data.len() ==> overwritten(bytes, offset, data)[index]
            == data[index - offset],
        !(offset <= index < offset + data.len()) ==> overwritten(bytes, offset, data)[index]
            == bytes[index],
{
}

/// The objects layout fits its block: the count comes first, every record
/// starts on a vector boundary, every mass on a word boundary, no two fields
/// overlap, and the last mass ends where the block ends.
pub proof fn lemma_objects_layout_fits(slot: int)
    requires
        0 <= slot < MAX_OBJECTS,
    ensures
        OBJECTS_BLOCK_BYTES == 4 + 12 + 16 * (16 + 16) + 16 * 4,
        OBJECTS_HEADER_BYTES <= record_offset(slot),
        record_offset(slot) % (VECTOR_BYTES as int) == 0,
        record_offset(slot) + OBJECT_RECORD_BYTES == record_offset(slot + 1),
        record_offset(MAX_OBJECTS as int) == OBJECTS_MASS_OFFSET,
        OBJECTS_MASS_OFFSET <= mass_offset(slot),
        mass_offset(slot) % (WORD_BYTES as int) == 0,
        mass_offset(slot) + WORD_BYTES == mass_offset(slot + 1),
        mass_offset(MAX_OBJECTS as int) == OBJECTS_BLOCK_BYTES,
{
    lemma_offsets(slot);
    lemma_offsets(slot + 1);
    lemma_offsets(MAX_OBJECTS as int);
}

/// The offsets of slot `slot` as plain arithmetic.
proof fn lemma_offsets(slot: int)
    ensures
        record_offset(slot) == 16 + 32 * slot,
        mass_offset(slot) == 528 + 4 * slot,
{
    assert(record_offset(slot) == 16 + 32 * slot && mass_offset(slot) == 528 + 4 * slot)
        by (nonlinear_arith)
        requires
            record_offset(slot) == OBJECTS_HEADER_BYTES + slot * OBJECT_RECORD_BYTES,
            mass_offset(slot) == OBJECTS_MASS_OFFSET + slot * WORD_BYTES,
            OBJECTS_HEADER_BYTES == 16 && OBJECT_RECORD_BYTES == 32 && OBJECTS_MASS_OFFSET == 528
                && WORD_BYTES == 4,
    ;
}

/// The bytes of a word, put together again, are the word.
proof fn lemma_word_from_bytes(word: u32)
    ensures
        word_byte(word, 0) + 0x100 * word_byte(word, 1) + 0x1_0000 * word_byte(word, 2)
            + 0x100_0000 * word_byte(word, 3) == word,
{
}

/// Byte `byte` of word `word` of the vector part of record `slot`, as the
/// image holds it.
proof fn lemma_image_vector_byte(
    before: Seq<u8>,
    count: u32,
    records: Seq<ObjectRecord>,
    slot: int,
    word: int,
    byte: int,
)
    requires
        before.len() == OBJECTS_BLOCK_BYTES,
        0 <= slot < records.len() <= MAX_OBJECTS,
        0 <= word < 8,
        0 <= byte < 4,
    ensures
        objects_image(before, count, records)[record_offset(slot) + 4 * word + byte] == word_byte(
            records[slot].vector_word(word),
            byte,
        ),
{
    lemma_offsets(slot);
    let index = 16 + 32 * slot + 4 * word + byte;
    let inside = index - 16;
    assert(inside == 32 * slot + (4 * word + byte));
    assert(inside / 32 == slot && inside % 32 == 4 * word + byte);
    assert((4 * word + byte) / 4 == word && (4 * word + byte) % 4 == byte);
    assert(objects_image(before, count, records)[index] == objects_byte(
        before,
        count,
        records,
        index,
    ));
}

/// Byte `byte` of the mass of record `slot`, as the image holds it.
proof fn lemma_image_mass_byte(
    before: Seq<u8>,
    count: u32,
    records: Seq<ObjectRecord>,
    slot: int,
    byte: int,
)
    requires
        before.len() == OBJECTS_BLOCK_BYTES,
        0 <= slot < records.len() <= MAX_OBJECTS,
        0 <= byte < 4,
    ensures
        objects_image(before, count, records)[mass_offset(slot) + byte] == word_byte(
            records[slot].mass,
            byte,
        ),
{
    lemma_offsets(slot);
    let index = 528 + 4 * slot + byte;
    let inside = index - 528;
    assert(inside == 4 * slot + byte);
    assert(inside / 4 == slot && inside % 4 == byte);
    assert(objects_image(before, count, records)[index] == objects_byte(
        before,
        count,
        records,
        index,
    ));
}

/// What was written into the objects block reads back: the count from the
/// first word, and each word of each record from its place.
pub proof fn lemma_objects_read_back(
    before: Seq<u8>,
    count: u32,
    records: Seq<ObjectRecord>,
    slot: int,
    word: int,
)
    requires
        before.len() == OBJECTS_BLOCK_BYTES,
        0 <= slot < records.len() <= MAX_OBJECTS,
        0 <= word < 8,
    ensures
        word_at(objects_image(before, count, records), 0) == count,
        word_at(objects_image(before, count, records), record_offset(slot) + 4 * word)
            == records[slot].vector_word(word),
        word_at(objects_image(before, count, records), mass_offset(slot)) == records[slot].mass,
{
    let image = objects_image(before, count, records);
    assert(word_at(image, 0) == count) by {
        assert(image[0] == word_byte(count, 0));
        assert(image[1] == word_byte(count, 1));
        assert(image[2] == word_byte(count, 2));
        assert(image[3] == word_byte(count, 3));
        lemma_word_from_bytes(count);
    }
    assert(word_at(image, record_offset(slot) + 4 * word) == records[slot].vector_word(word)) by {
        lemma_image_vector_byte(before, count, records, slot, word, 0);
        lemma_image_vector_byte(before, count, records, slot, word, 1);
        lemma_image_vector_byte(before, count, records, slot, word, 2);
        lemma_image_vector_byte(before, count, records, slot, word, 3);
        lemma_word_from_bytes(records[slot].vector_word(word));
    }
    assert(word_at(image, mass_offset(slot)) == records[slot].mass) by {
        lemma_image_mass_byte(before, count, records, slot, 0);
        lemma_image_mass_byte(before, count, records, slot, 1);
        lemma_image_mass_byte(before, count, records, slot, 2);
        lemma_image_mass_byte(before, count, records, slot, 3);
        lemma_word_from_bytes(records[slot].mass);
    }
}

/// Writing objects leaves the padding after the count and the slots of the
/// records that were not given as they were.
pub proof fn lemma_objects_write_is_local(
    before: Seq<u8>,
    count: u32,
    records: Seq<ObjectRecord>,
    index: int,
)
    requires
        before.len() == OBJECTS_BLOCK_BYTES,
        records.len() <= MAX_OBJECTS,
        0 <= index < before.len(),
        WORD_BYTES <= index < OBJECTS_HEADER_BYTES || record_offset(records.len() as int) <= index
            < OBJECTS_MASS_OFFSET || mass_offset(records.len() as int) <= index,
    ensures
        objects_image(before, count, records).len() == before.len(),
        objects_image(before, count, records)[index] == before[index],
{
    lemma_offsets(records.len() as int);
}

} // verus!

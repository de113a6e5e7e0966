//! The descriptor-chain grammar and the walkers that traverse it.
//!
//! A descriptor region is a byte span holding chained records. Every record
//! begins with a two-byte header `(length, type)`; a record whose declared
//! length is 0 or 1, or which does not fit in the region, is malformed and
//! ends the walk there. Walkers advance strictly forward under a policy:
//! unfiltered, type-filtered, scoped to the records owned by an earlier
//! record, or both combined.

use vstd::prelude::*;
use crate::types::DescriptorType;

verus! {

/// A well-formed record begins at `i`: its two-byte header lies inside the
/// region, its declared length is at least the header size, and the whole
/// record fits in the region.
pub open spec fn record_at_spec(region: Seq<u8>, i: int) -> bool {
    &&& 0 <= i
    &&& i + 2 <= region.len()
    &&& region[i] >= 2
    &&& i + region[i] <= region.len()
}

/// The declared length of the record at `i`.
pub open spec fn record_len_spec(region: Seq<u8>, i: int) -> int {
    region[i] as int
}

/// The type byte of the record at `i`.
pub open spec fn record_type_spec(region: Seq<u8>, i: int) -> u8 {
    region[i + 1]
}

/// The nesting level of a record type: a record scopes every record that
/// follows it up to the next record of the same or a higher level.
/// Configurations contain interface associations, which contain interfaces,
/// which contain endpoints; every other type is a leaf.
pub open spec fn nesting_level_spec(type_byte: u8) -> int {
    if type_byte == 2 {
        4
    } else if type_byte == 11 {
        3
    } else if type_byte == 4 {
        2
    } else if type_byte == 5 {
        1
    } else {
        0
    }
}

/// Whether a record of type `type_byte` ends the scope of an owner of type
/// `owner_type`: it would start a new group of the same or a higher level.
pub open spec fn ends_scope_spec(type_byte: u8, owner_type: u8) -> bool {
    nesting_level_spec(type_byte) >= nesting_level_spec(owner_type)
        && nesting_level_spec(type_byte) >= 1
}

/// Whether the record at `i` is yielded under the walk policy, and whether
/// it ends the walk instead.
pub open spec fn walk_yields_spec(t: u8, filter: Option<u8>, owner_type: Option<u8>) -> bool {
    match filter {
        Option::Some(f) => t == f,
        Option::None => true,
    }
}

pub open spec fn walk_stops_spec(t: u8, owner_type: Option<u8>) -> bool {
    match owner_type {
        Option::Some(o) => ends_scope_spec(t, o),
        Option::None => false,
    }
}

/// The offsets a walk starting at `i` yields under the given policy: the
/// chain of records from `i` to the region end, the first malformed header,
/// or the first record that ends the owner's scope — keeping only the
/// records the type filter admits.
pub open spec fn walk_offsets_spec(
    region: Seq<u8>,
    i: int,
    filter: Option<u8>,
    owner_type: Option<u8>,
) -> Seq<int>
    decreases region.len() - i,
    when 0 <= i
{
    if record_at_spec(region, i) {
        let t = record_type_spec(region, i);
        if walk_stops_spec(t, owner_type) {
            Seq::<int>::empty()
        } else if walk_yields_spec(t, filter, owner_type) {
            seq![i] + walk_offsets_spec(region, i + region[i], filter, owner_type)
        } else {
            walk_offsets_spec(region, i + region[i], filter, owner_type)
        }
    } else {
        Seq::<int>::empty()
    }
}

/// The offsets of the plain, unfiltered chain beginning at `i`.
pub open spec fn record_offsets_spec(region: Seq<u8>, i: int) -> Seq<int> {
    walk_offsets_spec(region, i, Option::None, Option::None)
}

/// A walk starting at `i` yields at most `(len - i) / 2` records: every
/// yielded record occupies at least two bytes of the region beyond `i`.
pub proof fn lemma_walk_count_bound(
    region: Seq<u8>,
    i: int,
    filter: Option<u8>,
    owner_type: Option<u8>,
)
    requires
        0 <= i,
    ensures
        2 * walk_offsets_spec(region, i, filter, owner_type).len() <= region.len() - i
            || walk_offsets_spec(region, i, filter, owner_type).len() == 0,
    decreases region.len() - i,
{
    if record_at_spec(region, i) {
        lemma_walk_count_bound(region, i + region[i], filter, owner_type);
    }
}

/// Every walk over a region of length `n` yields at most `n / 2` records,
/// whatever its starting offset, filter and scope: traversal cannot run
/// unboundedly, even over a region holding a record of declared length 0
/// or 1 (the walk ends at such a record).
pub proof fn lemma_traversal_termination(
    region: Seq<u8>,
    i: int,
    filter: Option<u8>,
    owner_type: Option<u8>,
)
    requires
        0 <= i,
    ensures
        2 * walk_offsets_spec(region, i, filter, owner_type).len() <= region.len(),
{
    lemma_walk_count_bound(region, i, filter, owner_type);
}

/// The two-byte header of a record, together with the offset of the record
/// in its region.
#[derive(Clone, Copy, PartialEq, Eq, Structural, Debug)]
pub struct DescriptorHeader {
    pub offset: usize,
    pub length: u8,
    pub type_byte: u8,
}

/// The header of the record at `i`.
pub open spec fn header_at_spec(region: Seq<u8>, i: int) -> DescriptorHeader {
    DescriptorHeader { offset: i as usize, length: region[i], type_byte: region[i + 1] }
}

impl DescriptorHeader {
    /// The declared length of the record.
    pub fn length(&self) -> (r: u8)
        ensures
            r == self.length,
    {
        self.length
    }

    /// The kind the record's type byte decodes to.
    pub fn descriptor_type(&self) -> (r: DescriptorType)
        ensures
            r == DescriptorType::from_value_spec(self.type_byte),
    {
        DescriptorType::from(self.type_byte)
    }
}

/// A cursor over a descriptor region: the offset of the next record to
/// examine. It moves strictly forward and never leaves the region.
pub struct DescriptorCursor<'a> {
    pub region: &'a [u8],
    pub pos: usize,
}

impl<'a> DescriptorCursor<'a> {
    pub open spec fn region_spec(self) -> Seq<u8> {
        self.region@
    }

    pub open spec fn pos_spec(self) -> int {
        self.pos as int
    }

    /// A cursor at the start of the region.
    pub fn new(region: &'a [u8]) -> (r: DescriptorCursor<'a>)
        ensures
            r.region_spec() == region@,
            r.pos_spec() == 0,
    {
        DescriptorCursor { region, pos: 0 }
    }

    /// Whether a well-formed record begins at the current position.
    pub fn has_record(&self) -> (r: bool)
        ensures
            r == record_at_spec(self.region_spec(), self.pos_spec()),
    {
        self.pos < self.region.len() && self.region.len() - self.pos >= 2 && {
            let len = self.region[self.pos];
            len >= 2 && (len as usize) <= self.region.len() - self.pos
        }
    }

    /// The header of the record at the current position.
    pub fn header(&self) -> (r: DescriptorHeader)
        requires
            record_at_spec(self.region_spec(), self.pos_spec()),
        ensures
            r == header_at_spec(self.region_spec(), self.pos_spec()),
    {
        DescriptorHeader {
            offset: self.pos,
            length: self.region[self.pos],
            type_byte: self.region[self.pos + 1],
        }
    }

    /// Skip the record at the current position, using its declared length.
    pub fn advance(&mut self)
        requires
            record_at_spec(old(self).region_spec(), old(self).pos_spec()),
        ensures
            final(self).region == old(self).region,
            final(self).pos_spec() == old(self).pos_spec() + record_len_spec(
                old(self).region_spec(),
                old(self).pos_spec(),
            ),
    {
        self.pos = self.pos + self.region[self.pos] as usize;
    }
}

/// One step of a walk: from `pos`, the offset and header of the next record
/// the policy yields, together with the position the walk continues from.
/// Returns the final position and no header when the walk is over.
fn walk_next(
    region: &[u8],
    pos: usize,
    filter: Option<u8>,
    owner_type: Option<u8>,
) -> (r: (usize, Option<DescriptorHeader>))
    ensures
        ({
            let rem = walk_offsets_spec(region@, pos as int, filter, owner_type);
            let rem_after = walk_offsets_spec(region@, r.0 as int, filter, owner_type);
            &&& rem.len() > 0 ==> {
                &&& r.1 == Option::Some(header_at_spec(region@, rem[0]))
                &&& rem_after =~= rem.skip(1)
                &&& record_at_spec(region@, rem[0])
                &&& walk_yields_spec(record_type_spec(region@, rem[0]), filter, owner_type)
                &&& rem[0] <= usize::MAX
            }
            &&& rem.len() == 0 ==> {
                &&& r.1 is None
                &&& rem_after.len() == 0
            }
        }),
{
    let mut cursor = DescriptorCursor { region, pos };
    loop
        invariant
            cursor.region == region,
            walk_offsets_spec(region@, cursor.pos as int, filter, owner_type)
                =~= walk_offsets_spec(region@, pos as int, filter, owner_type),
        decreases region@.len() - cursor.pos,
    {
        if !cursor.has_record() {
            return (cursor.pos, Option::None);
        }
        let header = cursor.header();
        let stops = match owner_type {
            Option::Some(o) => {
                let lt = nesting_level(header.type_byte);
                let lo = nesting_level(o);
                lt >= lo && lt >= 1
            },
            Option::None => false,
        };
        if stops {
            return (cursor.pos, Option::None);
        }
        let yields = match filter {
            Option::Some(f) => header.type_byte == f,
            Option::None => true,
        };
        cursor.advance();
        if yields {
            proof {
                let rem = walk_offsets_spec(region@, pos as int, filter, owner_type);
                assert(rem =~= seq![header.offset as int] + walk_offsets_spec(
                    region@,
                    cursor.pos as int,
                    filter,
                    owner_type,
                ));
                assert(walk_offsets_spec(region@, cursor.pos as int, filter, owner_type)
                    =~= rem.skip(1));
            }
            return (cursor.pos, Option::Some(header));
        }
    }
}

/// The nesting level of a record type.
fn nesting_level(type_byte: u8) -> (r: i32)
    ensures
        r == nesting_level_spec(type_byte),
{
    if type_byte == 2 {
        4
    } else if type_byte == 11 {
        3
    } else if type_byte == 4 {
        2
    } else if type_byte == 5 {
        1
    } else {
        0
    }
}

/// A single-pass walker over every record of a region.
pub struct Descriptors<'a> {
    pub region: &'a [u8],
    pub pos: usize,
}

impl<'a> Descriptors<'a> {
    /// The record offsets the walker has still to yield.
    pub open spec fn remaining_spec(self) -> Seq<int> {
        walk_offsets_spec(self.region@, self.pos as int, Option::None, Option::None)
    }

    /// A walker over the whole region, starting at its first record.
    pub fn new(region: &'a [u8]) -> (r: Descriptors<'a>)
        ensures
            r.region == region,
            r.remaining_spec() == record_offsets_spec(region@, 0),
    {
        Descriptors { region, pos: 0 }
    }

    /// The next record of the region, or `None` when the region end or a
    /// malformed header ends the walk.
    pub fn next(&mut self) -> (r: Option<DescriptorHeader>)
        ensures
            final(self).region == old(self).region,
            old(self).remaining_spec().len() > 0 ==> {
                &&& r == Option::Some(
                    header_at_spec(old(self).region@, old(self).remaining_spec()[0]),
                )
                &&& record_at_spec(old(self).region@, old(self).remaining_spec()[0])
                &&& old(self).remaining_spec()[0] <= usize::MAX
                &&& final(self).remaining_spec() =~= old(self).remaining_spec().skip(1)
            },
            old(self).remaining_spec().len() == 0 ==> r is None
                && final(self).remaining_spec().len() == 0,
    {
        let (pos, header) = walk_next(self.region, self.pos, Option::None, Option::None);
        self.pos = pos;
        header
    }
}

/// A single-pass walker over the records of one type.
pub struct TypedDescriptors<'a> {
    pub region: &'a [u8],
    pub pos: usize,
    pub descriptor_type: u8,
}

impl<'a> TypedDescriptors<'a> {
    /// The record offsets the walker has still to yield.
    pub open spec fn remaining_spec(self) -> Seq<int> {
        walk_offsets_spec(
            self.region@,
            self.pos as int,
            Option::Some(self.descriptor_type),
            Option::None,
        )
    }

    /// A walker over the region's records of type `descriptor_type`.
    pub fn new(region: &'a [u8], descriptor_type: u8) -> (r: TypedDescriptors<'a>)
        ensures
            r.region == region,
            r.descriptor_type == descriptor_type,
            r.remaining_spec() == walk_offsets_spec(
                region@,
                0,
                Option::Some(descriptor_type),
                Option::None,
            ),
    {
        TypedDescriptors { region, pos: 0, descriptor_type }
    }

    /// The next record of the requested type, or `None` when the walk ends.
    pub fn next(&mut self) -> (r: Option<DescriptorHeader>)
        ensures
            final(self).region == old(self).region,
            final(self).descriptor_type == old(self).descriptor_type,
            old(self).remaining_spec().len() > 0 ==> {
                &&& r == Option::Some(
                    header_at_spec(old(self).region@, old(self).remaining_spec()[0]),
                )
                &&& record_at_spec(old(self).region@, old(self).remaining_spec()[0])
                &&& old(self).remaining_spec()[0] <= usize::MAX
                &&& record_type_spec(old(self).region@, old(self).remaining_spec()[0]) == old(
                    self,
                ).descriptor_type
                &&& final(self).remaining_spec() =~= old(self).remaining_spec().skip(1)
            },
            old(self).remaining_spec().len() == 0 ==> r is None
                && final(self).remaining_spec().len() == 0,
    {
        let (pos, header) = walk_next(
            self.region,
            self.pos,
            Option::Some(self.descriptor_type),
            Option::None,
        );
        self.pos = pos;
        header
    }
}

/// A single-pass walker over the records scoped to an owning record: those
/// following it, up to the next record of the owner's or a higher nesting
/// level.
pub struct AssociatedDescriptors<'a> {
    pub region: &'a [u8],
    pub pos: usize,
    pub owner_type: u8,
}

impl<'a> AssociatedDescriptors<'a> {
    /// The record offsets the walker has still to yield.
    pub open spec fn remaining_spec(self) -> Seq<int> {
        walk_offsets_spec(
            self.region@,
            self.pos as int,
            Option::None,
            Option::Some(self.owner_type),
        )
    }

    /// A walker over the records owned by the record `owner`, which must be
    /// a well-formed record of the region.
    pub fn new(region: &'a [u8], owner: &DescriptorHeader) -> (r: AssociatedDescriptors<'a>)
        requires
            record_at_spec(region@, owner.offset as int),
            owner.length == record_len_spec(region@, owner.offset as int),
            owner.type_byte == record_type_spec(region@, owner.offset as int),
        ensures
            r.region == region,
            r.owner_type == owner.type_byte,
            r.remaining_spec() == walk_offsets_spec(
                region@,
                owner.offset + owner.length,
                Option::None,
                Option::Some(owner.type_byte),
            ),
    {
        let n = region.len();
        proof {
            assert(owner.offset + owner.length <= n);
        }
        AssociatedDescriptors {
            region,
            pos: owner.offset + owner.length as usize,
            owner_type: owner.type_byte,
        }
    }

    /// The next record in the owner's scope, or `None` when the scope ends.
    pub fn next(&mut self) -> (r: Option<DescriptorHeader>)
        ensures
            final(self).region == old(self).region,
            final(self).owner_type == old(self).owner_type,
            old(self).remaining_spec().len() > 0 ==> {
                &&& r == Option::Some(
                    header_at_spec(old(self).region@, old(self).remaining_spec()[0]),
                )
                &&& record_at_spec(old(self).region@, old(self).remaining_spec()[0])
                &&& old(self).remaining_spec()[0] <= usize::MAX
                &&& final(self).remaining_spec() =~= old(self).remaining_spec().skip(1)
            },
            old(self).remaining_spec().len() == 0 ==> r is None
                && final(self).remaining_spec().len() == 0,
    {
        let (pos, header) = walk_next(
            self.region,
            self.pos,
            Option::None,
            Option::Some(self.owner_type),
        );
        self.pos = pos;
        header
    }
}

/// A single-pass walker over the records of one type scoped to an owning
/// record.
pub struct TypedAssociatedDescriptors<'a> {
    pub region: &'a [u8],
    pub pos: usize,
    pub owner_type: u8,
    pub descriptor_type: u8,
}

impl<'a> TypedAssociatedDescriptors<'a> {
    /// The record offsets the walker has still to yield.
    pub open spec fn remaining_spec(self) -> Seq<int> {
        walk_offsets_spec(
            self.region@,
            self.pos as int,
            Option::Some(self.descriptor_type),
            Option::Some(self.owner_type),
        )
    }

    /// A walker over the records of type `descriptor_type` owned by the
    /// record `owner`, which must be a well-formed record of the region.
    pub fn new(region: &'a [u8], owner: &DescriptorHeader, descriptor_type: u8) -> (r:
        TypedAssociatedDescriptors<'a>)
        requires
            record_at_spec(region@, owner.offset as int),
            owner.length == record_len_spec(region@, owner.offset as int),
            owner.type_byte == record_type_spec(region@, owner.offset as int),
        ensures
            r.region == region,
            r.owner_type == owner.type_byte,
            r.descriptor_type == descriptor_type,
            r.remaining_spec() == walk_offsets_spec(
                region@,
                owner.offset + owner.length,
                Option::Some(descriptor_type),
                Option::Some(owner.type_byte),
            ),
    {
        let n = region.len();
        proof {
            assert(owner.offset + owner.length <= n);
        }
        TypedAssociatedDescriptors {
            region,
            pos: owner.offset + owner.length as usize,
            owner_type: owner.type_byte,
            descriptor_type,
        }
    }

    /// The next matching record in the owner's scope, or `None` when the
    /// scope ends.
    pub fn next(&mut self) -> (r: Option<DescriptorHeader>)
        ensures
            final(self).region == old(self).region,
            final(self).owner_type == old(self).owner_type,
            final(self).descriptor_type == old(self).descriptor_type,
            old(self).remaining_spec().len() > 0 ==> {
                &&& r == Option::Some(
                    header_at_spec(old(self).region@, old(self).remaining_spec()[0]),
                )
                &&& record_at_spec(old(self).region@, old(self).remaining_spec()[0])
                &&& old(self).remaining_spec()[0] <= usize::MAX
                &&& record_type_spec(old(self).region@, old(self).remaining_spec()[0]) == old(
                    self,
                ).descriptor_type
                &&& final(self).remaining_spec() =~= old(self).remaining_spec().skip(1)
            },
            old(self).remaining_spec().len() == 0 ==> r is None
                && final(self).remaining_spec().len() == 0,
    {
        let (pos, header) = walk_next(
            self.region,
            self.pos,
            Option::Some(self.descriptor_type),
            Option::Some(self.owner_type),
        );
        self.pos = pos;
        header
    }
}


/// A walker over every record of the region, as `Descriptors::new` builds
/// it.
pub fn descriptors<'a>(region: &'a [u8]) -> (r: Descriptors<'a>)
    ensures
        r.region == region,
        r.remaining_spec() == record_offsets_spec(region@, 0),
{
    Descriptors::new(region)
}

/// A walker over the region's records of one type, as
/// `TypedDescriptors::new` builds it.
pub fn descriptors_with_type<'a>(region: &'a [u8], descriptor_type: u8) -> (r: TypedDescriptors<
    'a,
>)
    ensures
        r.region == region,
        r.descriptor_type == descriptor_type,
        r.remaining_spec() == walk_offsets_spec(
            region@,
            0,
            Option::Some(descriptor_type),
            Option::None,
        ),
{
    TypedDescriptors::new(region, descriptor_type)
}

/// A walker over the records owned by `descriptor`, as
/// `AssociatedDescriptors::new` builds it.
pub fn associated_descriptors<'a>(region: &'a [u8], descriptor: &DescriptorHeader) -> (r:
    AssociatedDescriptors<'a>)
    requires
        record_at_spec(region@, descriptor.offset as int),
        descriptor.length == record_len_spec(region@, descriptor.offset as int),
        descriptor.type_byte == record_type_spec(region@, descriptor.offset as int),
    ensures
        r.region == region,
        r.owner_type == descriptor.type_byte,
        r.remaining_spec() == walk_offsets_spec(
            region@,
            descriptor.offset + descriptor.length,
            Option::None,
            Option::Some(descriptor.type_byte),
        ),
{
    AssociatedDescriptors::new(region, descriptor)
}

/// A walker over the records of one type owned by `descriptor`, as
/// `TypedAssociatedDescriptors::new` builds it.
pub fn associated_descriptors_with_type<'a>(
    region: &'a [u8],
    descriptor: &DescriptorHeader,
    descriptor_type: u8,
) -> (r: TypedAssociatedDescriptors<'a>)
    requires
        record_at_spec(region@, descriptor.offset as int),
        descriptor.length == record_len_spec(region@, descriptor.offset as int),
        descriptor.type_byte == record_type_spec(region@, descriptor.offset as int),
    ensures
        r.region == region,
        r.owner_type == descriptor.type_byte,
        r.descriptor_type == descriptor_type,
        r.remaining_spec() == walk_offsets_spec(
            region@,
            descriptor.offset + descriptor.length,
            Option::Some(descriptor_type),
            Option::Some(descriptor.type_byte),
        ),
{
    TypedAssociatedDescriptors::new(region, descriptor, descriptor_type)
}


/// Any walker instance yields at most half as many records as its region
/// has bytes, whatever its policy and wherever it stands: traversal always
/// terminates, also on a region holding a record of declared length 0
/// or 1.
pub proof fn lemma_descriptors_yield_bound(w: Descriptors)
    ensures
        2 * w.remaining_spec().len() <= w.region@.len(),
{
    lemma_traversal_termination(w.region@, w.pos as int, Option::None, Option::None);
}

/// The yield bound of `lemma_descriptors_yield_bound`, for the
/// type-filtered walker.
pub proof fn lemma_typed_descriptors_yield_bound(w: TypedDescriptors)
    ensures
        2 * w.remaining_spec().len() <= w.region@.len(),
{
    lemma_traversal_termination(
        w.region@,
        w.pos as int,
        Option::Some(w.descriptor_type),
        Option::None,
    );
}

/// The yield bound of `lemma_descriptors_yield_bound`, for the
/// association-scoped walker.
pub proof fn lemma_associated_descriptors_yield_bound(w: AssociatedDescriptors)
    ensures
        2 * w.remaining_spec().len() <= w.region@.len(),
{
    lemma_traversal_termination(
        w.region@,
        w.pos as int,
        Option::None,
        Option::Some(w.owner_type),
    );
}

/// The yield bound of `lemma_descriptors_yield_bound`, for the scoped and
/// filtered walker.
pub proof fn lemma_typed_associated_descriptors_yield_bound(w: TypedAssociatedDescriptors)
    ensures
        2 * w.remaining_spec().len() <= w.region@.len(),
{
    lemma_traversal_termination(
        w.region@,
        w.pos as int,
        Option::Some(w.descriptor_type),
        Option::Some(w.owner_type),
    );
}

} // verus!

//! The BOS (binary object store) capability region: a container record
//! followed by device-capability sub-records, each tagged with a capability
//! kind in its third byte. Walkers traverse the sub-records; typed lookups
//! find and overlay one capability kind.

use vstd::prelude::*;
use crate::cursor::record_at_spec;
use crate::cursor::record_len_spec;
use crate::cursor::record_type_spec;
use crate::types::DescriptorType;
use crate::types::DeviceCapabilityType;
use crate::views::check_typed_record;
use crate::views::le16_at;
use crate::views::le16_at_spec;
use crate::views::le32_at;
use crate::views::le32_at_spec;
use crate::views::typed_record_at_spec;

verus! {

/// Whether the record at `i` is a device-capability record matching the
/// wanted capability kind and, when one is given, the wanted 16-byte
/// platform identifier at bytes 4..20 of the record.
pub open spec fn capability_matches_spec(
    region: Seq<u8>,
    i: int,
    want: Option<u8>,
    uuid: Option<Seq<u8>>,
) -> bool {
    &&& record_type_spec(region, i) == 16
    &&& record_len_spec(region, i) >= 3
    &&& match want {
        Option::Some(w) => region[i + 2] == w,
        Option::None => true,
    }
    &&& match uuid {
        Option::Some(u) => record_len_spec(region, i) >= 20 && region.subrange(i + 4, i + 20)
            =~= u,
        Option::None => true,
    }
}

/// The offsets of the matching device-capability records in the chain
/// beginning at `i`; records of other kinds are skipped, and the walk ends
/// at the region end or the first malformed header.
pub open spec fn capability_offsets_spec(
    region: Seq<u8>,
    i: int,
    want: Option<u8>,
    uuid: Option<Seq<u8>>,
) -> Seq<int>
    decreases region.len() - i,
    when 0 <= i
{
    if record_at_spec(region, i) {
        if capability_matches_spec(region, i, want, uuid) {
            seq![i] + capability_offsets_spec(region, i + region[i], want, uuid)
        } else {
            capability_offsets_spec(region, i + region[i], want, uuid)
        }
    } else {
        Seq::<int>::empty()
    }
}

/// A capability walk starting at `i` yields at most `(len - i) / 2`
/// records, whatever its filters: every yielded record occupies at least
/// two bytes of the region beyond `i`.
pub proof fn lemma_capability_walk_count_bound(
    region: Seq<u8>,
    i: int,
    want: Option<u8>,
    uuid: Option<Seq<u8>>,
)
    requires
        0 <= i,
    ensures
        2 * capability_offsets_spec(region, i, want, uuid).len() <= region.len() - i
            || capability_offsets_spec(region, i, want, uuid).len() == 0,
    decreases region.len() - i,
{
    if record_at_spec(region, i) {
        lemma_capability_walk_count_bound(region, i + region[i], want, uuid);
    }
}

/// Every capability walk over a region of length `n` yields at most
/// `n / 2` records.
pub proof fn lemma_capability_traversal_termination(
    region: Seq<u8>,
    i: int,
    want: Option<u8>,
    uuid: Option<Seq<u8>>,
)
    requires
        0 <= i,
    ensures
        2 * capability_offsets_spec(region, i, want, uuid).len() <= region.len(),
{
    lemma_capability_walk_count_bound(region, i, want, uuid);
}

/// Whether the 16 bytes at `i` equal the given identifier.
fn bytes_match_at(region: &[u8], i: usize, uuid: &[u8]) -> (r: bool)
    requires
        i + 16 <= region@.len(),
        uuid@.len() == 16,
    ensures
        r == (region@.subrange(i as int, i + 16) =~= uuid@),
{
    let n = region.len();
    let mut k: usize = 0;
    while k < 16
        invariant
            0 <= k <= 16,
            i + 16 <= n,
            n == region@.len(),
            uuid@.len() == 16,
            forall|j: int| 0 <= j < k ==> region@[i + j] == uuid@[j],
        decreases 16 - k,
    {
        if region[i + k] != uuid[k] {
            assert(region@.subrange(i as int, i + 16)[k as int] != uuid@[k as int]);
            return false;
        }
        k = k + 1;
    }
    assert forall|j: int| 0 <= j < 16 implies region@.subrange(i as int, i + 16)[j] == uuid@[j] by {
        assert(region@[i + j] == uuid@[j]);
    }
    true
}

/// The generic header of one device-capability record.
#[derive(Clone, Copy, PartialEq, Eq, Structural, Debug)]
pub struct Capability {
    pub offset: usize,
    pub length: u8,
    pub capability_type: u8,
}

impl Capability {
    /// The view over the record at `i`, if a device-capability record with
    /// a kind byte begins there.
    pub open spec fn parse_spec(region: Seq<u8>, i: int) -> Option<Capability> {
        if typed_record_at_spec(region, i, 16, 3) {
            Option::Some(
                Capability { offset: i as usize, length: region[i], capability_type: region[i + 2] },
            )
        } else {
            Option::None
        }
    }

    /// Parse the record at `offset` as a device-capability header.
    pub fn parse(region: &[u8], offset: usize) -> (r: Option<Capability>)
        ensures
            r == Self::parse_spec(region@, offset as int),
    {
        if !check_typed_record(region, offset, 16, 3) {
            return Option::None;
        }
        Option::Some(
            Capability {
                offset,
                length: region[offset],
                capability_type: region[offset + 2],
            },
        )
    }

    pub fn length(&self) -> (r: u8)
        ensures
            r == self.length,
    {
        self.length
    }

    pub fn descriptor_type(&self) -> (r: DescriptorType)
        ensures
            r == DescriptorType::DeviceCapability,
    {
        DescriptorType::DeviceCapability
    }

    /// The capability kind the record's third byte decodes to.
    pub fn device_capability_type(&self) -> (r: DeviceCapabilityType)
        ensures
            r == DeviceCapabilityType::from_value_spec(self.capability_type),
    {
        DeviceCapabilityType::from(self.capability_type)
    }
}

/// One step of a capability walk: from `pos`, the next matching
/// device-capability record, and the position the walk continues from.
fn capability_walk_next(region: &[u8], pos: usize, want: Option<u8>) -> (r: (
    usize,
    Option<Capability>,
))
    ensures
        ({
            let rem = capability_offsets_spec(region@, pos as int, want, Option::None);
            let rem_after = capability_offsets_spec(region@, r.0 as int, want, Option::None);
            &&& rem.len() > 0 ==> {
                &&& r.1 == Capability::parse_spec(region@, rem[0])
                &&& r.1 is Some
                &&& rem[0] <= usize::MAX
                &&& r.0 == rem[0] + record_len_spec(region@, rem[0])
                &&& rem_after =~= rem.skip(1)
            }
            &&& rem.len() == 0 ==> r.1 is None && rem_after.len() == 0
        }),
{
    let n = region.len();
    let mut cur = pos;
    loop
        invariant
            n == region@.len(),
            capability_offsets_spec(region@, cur as int, want, Option::None)
                =~= capability_offsets_spec(region@, pos as int, want, Option::None),
        decreases region@.len() - cur,
    {
        let cursor = crate::cursor::DescriptorCursor { region, pos: cur };
        if !cursor.has_record() {
            proof {
                assert(capability_offsets_spec(region@, cur as int, want, Option::None)
                    =~= Seq::<int>::empty());
            }
            return (cur, Option::None);
        }
        proof {
            assert(cur + 2 <= n);
        }
        let len = region[cur];
        let matches = region[cur + 1] == 16 && len >= 3 && (match want {
            Option::Some(w) => region[cur + 2] == w,
            Option::None => true,
        });
        let next = cur + len as usize;
        if matches {
            let cap = Capability { offset: cur, length: len, capability_type: region[cur + 2] };
            proof {
                let rem = capability_offsets_spec(region@, cur as int, want, Option::None);
                assert(capability_matches_spec(region@, cur as int, want, Option::None));
                assert(rem =~= seq![cur as int] + capability_offsets_spec(
                    region@,
                    next as int,
                    want,
                    Option::None,
                ));
                assert(capability_offsets_spec(region@, next as int, want, Option::None)
                    =~= rem.skip(1));
                assert(Capability::parse_spec(region@, rem[0]) == Option::Some(cap));
            }
            return (next, Option::Some(cap));
        }
        proof {
            assert(!capability_matches_spec(region@, cur as int, want, Option::None));
            assert(capability_offsets_spec(region@, cur as int, want, Option::None)
                =~= capability_offsets_spec(region@, next as int, want, Option::None));
        }
        cur = next;
    }
}

/// A single-pass walker over the device-capability records of a BOS
/// region.
pub struct Capabilities<'a> {
    pub region: &'a [u8],
    pub pos: usize,
}

impl<'a> Capabilities<'a> {
    /// The capability offsets the walker has still to yield.
    pub open spec fn remaining_spec(self) -> Seq<int> {
        capability_offsets_spec(self.region@, self.pos as int, Option::None, Option::None)
    }

    /// The next device-capability record, or `None` when the walk ends.
    pub fn next(&mut self) -> (r: Option<Capability>)
        ensures
            final(self).region == old(self).region,
            old(self).remaining_spec().len() > 0 ==> {
                &&& r == Capability::parse_spec(old(self).region@, old(self).remaining_spec()[0])
                &&& r is Some
                &&& old(self).remaining_spec()[0] <= usize::MAX
                &&& final(self).remaining_spec() =~= old(self).remaining_spec().skip(1)
            },
            old(self).remaining_spec().len() == 0 ==> r is None
                && final(self).remaining_spec().len() == 0,
    {
        let (pos, cap) = capability_walk_next(self.region, self.pos, Option::None);
        self.pos = pos;
        cap
    }
}

/// A single-pass walker over the device-capability records of one kind.
pub struct TypedCapabilities<'a> {
    pub region: &'a [u8],
    pub pos: usize,
    pub capability_type: u8,
}

impl<'a> TypedCapabilities<'a> {
    /// The capability offsets the walker has still to yield.
    pub open spec fn remaining_spec(self) -> Seq<int> {
        capability_offsets_spec(
            self.region@,
            self.pos as int,
            Option::Some(self.capability_type),
            Option::None,
        )
    }

    /// The next device-capability record of the wanted kind, or `None`
    /// when the walk ends.
    pub fn next(&mut self) -> (r: Option<Capability>)
        ensures
            final(self).region == old(self).region,
            final(self).capability_type == old(self).capability_type,
            old(self).remaining_spec().len() > 0 ==> {
                &&& r == Capability::parse_spec(old(self).region@, old(self).remaining_spec()[0])
                &&& r is Some
                &&& old(self).remaining_spec()[0] <= usize::MAX
                &&& final(self).pos == old(self).remaining_spec()[0] + record_len_spec(
                    old(self).region@,
                    old(self).remaining_spec()[0],
                )
                &&& final(self).remaining_spec() =~= old(self).remaining_spec().skip(1)
            },
            old(self).remaining_spec().len() == 0 ==> r is None
                && final(self).remaining_spec().len() == 0,
    {
        let (pos, cap) = capability_walk_next(
            self.region,
            self.pos,
            Option::Some(self.capability_type),
        );
        self.pos = pos;
        cap
    }
}

/// The BOS container record heading a capability region.
#[derive(Clone, Copy, PartialEq, Eq, Structural, Debug)]
pub struct CapabilityDescriptor {
    pub offset: usize,
    pub length: u8,
    pub total_length: u16,
    pub capability_count: u8,
}

impl CapabilityDescriptor {
    /// The view over the record at `i`, if a BOS container record of full
    /// length begins there.
    pub open spec fn parse_spec(region: Seq<u8>, i: int) -> Option<CapabilityDescriptor> {
        if typed_record_at_spec(region, i, 15, 5) {
            Option::Some(
                CapabilityDescriptor {
                    offset: i as usize,
                    length: region[i],
                    total_length: le16_at_spec(region, i + 2),
                    capability_count: region[i + 4],
                },
            )
        } else {
            Option::None
        }
    }

    /// Parse the record at `offset` as a BOS container record.
    pub fn parse(region: &[u8], offset: usize) -> (r: Option<CapabilityDescriptor>)
        ensures
            r == Self::parse_spec(region@, offset as int),
    {
        if !check_typed_record(region, offset, 15, 5) {
            return Option::None;
        }
        Option::Some(
            CapabilityDescriptor {
                offset,
                length: region[offset],
                total_length: le16_at(region, offset + 2),
                capability_count: region[offset + 4],
            },
        )
    }

    /// The offset at which this container's capability records begin.
    pub open spec fn body_spec(self) -> int {
        self.offset + self.length
    }

    pub fn length(&self) -> (r: u8)
        ensures
            r == self.length,
    {
        self.length
    }

    pub fn descriptor_type(&self) -> (r: DescriptorType)
        ensures
            r == DescriptorType::CapabilityDescriptor,
    {
        DescriptorType::CapabilityDescriptor
    }

    pub fn total_length(&self) -> (r: u16)
        ensures
            r == self.total_length,
    {
        self.total_length
    }

    pub fn capability_count(&self) -> (r: u8)
        ensures
            r == self.capability_count,
    {
        self.capability_count
    }

    /// A walker over the capability records following this container in
    /// its region.
    pub fn capabilities<'a>(&self, region: &'a [u8]) -> (r: Capabilities<'a>)
        requires
            Self::parse_spec(region@, self.offset as int) == Option::Some(*self),
        ensures
            r.region == region,
            r.pos == self.body_spec(),
            r.remaining_spec() == capability_offsets_spec(
                region@,
                self.body_spec(),
                Option::None,
                Option::None,
            ),
    {
        let n = region.len();
        proof {
            assert(self.offset + self.length <= n);
        }
        Capabilities { region, pos: self.offset + self.length as usize }
    }

    /// A walker over this container's capability records of one kind.
    pub fn capabilities_with_type<'a>(&self, region: &'a [u8], capability_type: u8) -> (r:
        TypedCapabilities<'a>)
        requires
            Self::parse_spec(region@, self.offset as int) == Option::Some(*self),
        ensures
            r.region == region,
            r.capability_type == capability_type,
            r.pos == self.body_spec(),
            r.remaining_spec() == capability_offsets_spec(
                region@,
                self.body_spec(),
                Option::Some(capability_type),
                Option::None,
            ),
    {
        let n = region.len();
        proof {
            assert(self.offset + self.length <= n);
        }
        TypedCapabilities { region, pos: self.offset + self.length as usize, capability_type }
    }
}

/// The offset of the first capability of kind `want` after the container,
/// if one exists.
pub open spec fn first_capability_spec(region: Seq<u8>, body: int, want: u8) -> Option<int> {
    let offs = capability_offsets_spec(region, body, Option::Some(want), Option::None);
    if offs.len() > 0 {
        Option::Some(offs[0])
    } else {
        Option::None
    }
}

/// The USB 2.0 extension capability.
#[derive(Clone, Copy, PartialEq, Eq, Structural, Debug)]
pub struct DeviceCapabilityUsb2Extension {
    pub offset: usize,
    pub length: u8,
    pub attributes: u32,
}

impl DeviceCapabilityUsb2Extension {
    /// The view over the record at `i`, if a USB 2.0 extension capability
    /// of full length begins there.
    pub open spec fn parse_spec(region: Seq<u8>, i: int) -> Option<DeviceCapabilityUsb2Extension> {
        if typed_record_at_spec(region, i, 16, 7) && record_type_spec(region, i) == 16 && region[i
            + 2] == 2 {
            Option::Some(
                DeviceCapabilityUsb2Extension {
                    offset: i as usize,
                    length: region[i],
                    attributes: le32_at_spec(region, i + 3),
                },
            )
        } else {
            Option::None
        }
    }

    /// Parse the record at `offset` as a USB 2.0 extension capability.
    pub fn parse(region: &[u8], offset: usize) -> (r: Option<DeviceCapabilityUsb2Extension>)
        ensures
            r == Self::parse_spec(region@, offset as int),
    {
        if !check_typed_record(region, offset, 16, 7) {
            return Option::None;
        }
        let n = region.len();
        proof {
            assert(offset + 7 <= n);
        }
        if region[offset + 2] != 2 {
            return Option::None;
        }
        Option::Some(
            DeviceCapabilityUsb2Extension {
                offset,
                length: region[offset],
                attributes: le32_at(region, offset + 3),
            },
        )
    }

    pub fn length(&self) -> (r: u8)
        ensures
            r == self.length,
    {
        self.length
    }

    pub fn descriptor_type(&self) -> (r: DescriptorType)
        ensures
            r == DescriptorType::DeviceCapability,
    {
        DescriptorType::DeviceCapability
    }

    pub fn device_capability_type(&self) -> (r: DeviceCapabilityType)
        ensures
            r == DeviceCapabilityType::Usb2Extension,
    {
        DeviceCapabilityType::Usb2Extension
    }

    pub fn attributes(&self) -> (r: u32)
        ensures
            r == self.attributes,
    {
        self.attributes
    }
}

/// The SuperSpeed device capability.
#[derive(Clone, Copy, PartialEq, Eq, Structural, Debug)]
pub struct DeviceCapabilitySS {
    pub offset: usize,
    pub length: u8,
    pub attributes: u8,
    pub speeds_supported: u16,
    pub functionality_support: u8,
    pub u1_dev_exit_lat: u8,
    pub u2_dev_exit_lat: u16,
}

impl DeviceCapabilitySS {
    /// The view over the record at `i`, if a SuperSpeed capability of full
    /// length begins there.
    pub open spec fn parse_spec(region: Seq<u8>, i: int) -> Option<DeviceCapabilitySS> {
        if typed_record_at_spec(region, i, 16, 10) && region[i + 2] == 3 {
            Option::Some(
                DeviceCapabilitySS {
                    offset: i as usize,
                    length: region[i],
                    attributes: region[i + 3],
                    speeds_supported: le16_at_spec(region, i + 4),
                    functionality_support: region[i + 6],
                    u1_dev_exit_lat: region[i + 7],
                    u2_dev_exit_lat: le16_at_spec(region, i + 8),
                },
            )
        } else {
            Option::None
        }
    }

    /// Parse the record at `offset` as a SuperSpeed capability.
    pub fn parse(region: &[u8], offset: usize) -> (r: Option<DeviceCapabilitySS>)
        ensures
            r == Self::parse_spec(region@, offset as int),
    {
        if !check_typed_record(region, offset, 16, 10) {
            return Option::None;
        }
        let n = region.len();
        proof {
            assert(offset + 10 <= n);
        }
        if region[offset + 2] != 3 {
            return Option::None;
        }
        Option::Some(
            DeviceCapabilitySS {
                offset,
                length: region[offset],
                attributes: region[offset + 3],
                speeds_supported: le16_at(region, offset + 4),
                functionality_support: region[offset + 6],
                u1_dev_exit_lat: region[offset + 7],
                u2_dev_exit_lat: le16_at(region, offset + 8),
            },
        )
    }

    pub fn length(&self) -> (r: u8)
        ensures
            r == self.length,
    {
        self.length
    }

    pub fn descriptor_type(&self) -> (r: DescriptorType)
        ensures
            r == DescriptorType::DeviceCapability,
    {
        DescriptorType::DeviceCapability
    }

    pub fn device_capability_type(&self) -> (r: DeviceCapabilityType)
        ensures
            r == DeviceCapabilityType::SuperSpeed,
    {
        DeviceCapabilityType::SuperSpeed
    }

    pub fn attributes(&self) -> (r: u8)
        ensures
            r == self.attributes,
    {
        self.attributes
    }

    pub fn speeds_supported(&self) -> (r: u16)
        ensures
            r == self.speeds_supported,
    {
        self.speeds_supported
    }

    pub fn functionality_support(&self) -> (r: u8)
        ensures
            r == self.functionality_support,
    {
        self.functionality_support
    }

    pub fn u1_dev_exit_lat(&self) -> (r: u8)
        ensures
            r == self.u1_dev_exit_lat,
    {
        self.u1_dev_exit_lat
    }

    pub fn u2_dev_exit_lat(&self) -> (r: u16)
        ensures
            r == self.u2_dev_exit_lat,
    {
        self.u2_dev_exit_lat
    }

    pub fn dev_exit_lat(&self) -> (r: (u8, u16))
        ensures
            r.0 == self.u1_dev_exit_lat,
            r.1 == self.u2_dev_exit_lat,
    {
        (self.u1_dev_exit_lat, self.u2_dev_exit_lat)
    }
}

/// The sublink speed attributes a SuperSpeedPlus capability declares: one
/// 32-bit word for each sublink attribute the attributes field counts.
pub open spec fn sublink_attrs_spec(region: Seq<u8>, i: int) -> Seq<u32> {
    Seq::new(
        (le32_at_spec(region, i + 4) % 32 + 1) as nat,
        |k: int| le32_at_spec(region, i + 12 + 4 * k),
    )
}

/// The SuperSpeedPlus device capability, with its variable-length sublink
/// speed attribute list.
#[derive(Clone, PartialEq, Eq, Debug)]
pub struct DeviceCapabilitySSP {
    pub offset: usize,
    pub length: u8,
    pub attributes: u32,
    pub functionality_support: u16,
    pub sublink_speed_attrs: Vec<u32>,
}

impl DeviceCapabilitySSP {
    /// Whether a SuperSpeedPlus capability begins at `i` whose declared
    /// length covers every sublink attribute its attributes field counts.
    pub open spec fn valid_at_spec(region: Seq<u8>, i: int) -> bool {
        &&& typed_record_at_spec(region, i, 16, 12)
        &&& region[i + 2] == 10
        &&& record_len_spec(region, i) >= 12 + 4 * (le32_at_spec(region, i + 4) % 32 + 1)
    }

    /// Parse the record at `offset` as a SuperSpeedPlus capability.
    pub fn parse(region: &[u8], offset: usize) -> (r: Option<DeviceCapabilitySSP>)
        ensures
            match r {
                Option::Some(v) => {
                    &&& Self::valid_at_spec(region@, offset as int)
                    &&& v.offset == offset
                    &&& v.length == region@[offset as int]
                    &&& v.attributes == le32_at_spec(region@, offset + 4)
                    &&& v.functionality_support == le16_at_spec(region@, offset + 8)
                    &&& v.sublink_speed_attrs@ =~= sublink_attrs_spec(region@, offset as int)
                },
                Option::None => !Self::valid_at_spec(region@, offset as int),
            },
    {
        if !check_typed_record(region, offset, 16, 12) {
            return Option::None;
        }
        let n = region.len();
        proof {
            assert(offset + 12 <= n);
        }
        if region[offset + 2] != 10 {
            return Option::None;
        }
        let attributes = le32_at(region, offset + 4);
        let count: usize = (attributes % 32) as usize + 1;
        let len = region[offset] as usize;
        if len < 12 + 4 * count {
            return Option::None;
        }
        proof {
            assert(offset + len <= n);
        }
        let mut attrs: Vec<u32> = Vec::new();
        let mut k: usize = 0;
        while k < count
            invariant
                0 <= k <= count,
                count <= 32,
                offset + 12 + 4 * count <= n,
                n == region@.len(),
                attrs@.len() == k,
                forall|j: int| 0 <= j < k ==> attrs@[j] == le32_at_spec(
                    region@,
                    offset + 12 + 4 * j,
                ),
            decreases count - k,
        {
            attrs.push(le32_at(region, offset + 12 + 4 * k));
            k = k + 1;
        }
        proof {
            assert(attrs@ =~= sublink_attrs_spec(region@, offset as int));
        }
        Option::Some(
            DeviceCapabilitySSP {
                offset,
                length: region[offset],
                attributes,
                functionality_support: le16_at(region, offset + 8),
                sublink_speed_attrs: attrs,
            },
        )
    }

    pub fn length(&self) -> (r: u8)
        ensures
            r == self.length,
    {
        self.length
    }

    pub fn descriptor_type(&self) -> (r: DescriptorType)
        ensures
            r == DescriptorType::DeviceCapability,
    {
        DescriptorType::DeviceCapability
    }

    pub fn device_capability_type(&self) -> (r: DeviceCapabilityType)
        ensures
            r == DeviceCapabilityType::SuperSpeedPlus,
    {
        DeviceCapabilityType::SuperSpeedPlus
    }

    pub fn attributes(&self) -> (r: u32)
        ensures
            r == self.attributes,
    {
        self.attributes
    }

    pub fn functionality_support(&self) -> (r: u16)
        ensures
            r == self.functionality_support,
    {
        self.functionality_support
    }

    /// The sublink speed attribute words, in declaration order.
    pub fn sublink_speed_attributes(&self) -> (r: &Vec<u32>)
        ensures
            r@ == self.sublink_speed_attrs@,
    {
        &self.sublink_speed_attrs
    }
}

/// The container-identifier capability, carrying a 16-byte identifier.
#[derive(Clone, PartialEq, Eq, Debug)]
pub struct DeviceCapabilityContainerId {
    pub offset: usize,
    pub length: u8,
    pub reserved_id: u8,
    pub container_id_bytes: Vec<u8>,
}

impl DeviceCapabilityContainerId {
    /// Whether a container-identifier capability of full length begins at
    /// `i`.
    pub open spec fn valid_at_spec(region: Seq<u8>, i: int) -> bool {
        typed_record_at_spec(region, i, 16, 20) && region[i + 2] == 4
    }

    /// Parse the record at `offset` as a container-identifier capability.
    pub fn parse(region: &[u8], offset: usize) -> (r: Option<DeviceCapabilityContainerId>)
        ensures
            match r {
                Option::Some(v) => {
                    &&& Self::valid_at_spec(region@, offset as int)
                    &&& v.offset == offset
                    &&& v.length == region@[offset as int]
                    &&& v.reserved_id == region@[offset + 3]
                    &&& v.container_id_bytes@ =~= region@.subrange(offset + 4, offset + 20)
                },
                Option::None => !Self::valid_at_spec(region@, offset as int),
            },
    {
        if !check_typed_record(region, offset, 16, 20) {
            return Option::None;
        }
        let n = region.len();
        proof {
            assert(offset + 20 <= n);
        }
        if region[offset + 2] != 4 {
            return Option::None;
        }
        let mut id: Vec<u8> = Vec::new();
        let mut k: usize = 0;
        while k < 16
            invariant
                0 <= k <= 16,
                offset + 20 <= n,
                n == region@.len(),
                id@.len() == k,
                forall|j: int| 0 <= j < k ==> id@[j] == region@[offset + 4 + j],
            decreases 16 - k,
        {
            id.push(region[offset + 4 + k]);
            k = k + 1;
        }
        proof {
            assert(id@ =~= region@.subrange(offset + 4, offset + 20));
        }
        Option::Some(
            DeviceCapabilityContainerId {
                offset,
                length: region[offset],
                reserved_id: region[offset + 3],
                container_id_bytes: id,
            },
        )
    }

    pub fn length(&self) -> (r: u8)
        ensures
            r == self.length,
    {
        self.length
    }

    pub fn descriptor_type(&self) -> (r: DescriptorType)
        ensures
            r == DescriptorType::DeviceCapability,
    {
        DescriptorType::DeviceCapability
    }

    pub fn device_capability_type(&self) -> (r: DeviceCapabilityType)
        ensures
            r == DeviceCapabilityType::ContainerID,
    {
        DeviceCapabilityType::ContainerID
    }

    pub fn reserved_id(&self) -> (r: u8)
        ensures
            r == self.reserved_id,
    {
        self.reserved_id
    }

    /// The 16-byte container identifier.
    pub fn container_id(&self) -> (r: &Vec<u8>)
        ensures
            r@ == self.container_id_bytes@,
    {
        &self.container_id_bytes
    }
}

/// The platform-specific capability, identified by a 16-byte identifier.
#[derive(Clone, PartialEq, Eq, Debug)]
pub struct PlatformCapabilityDescriptor {
    pub offset: usize,
    pub length: u8,
    pub uuid_bytes: Vec<u8>,
}

impl PlatformCapabilityDescriptor {
    /// Whether a platform capability of full length begins at `i`.
    pub open spec fn valid_at_spec(region: Seq<u8>, i: int) -> bool {
        typed_record_at_spec(region, i, 16, 20) && region[i + 2] == 5
    }

    /// Parse the record at `offset` as a platform capability.
    pub fn parse(region: &[u8], offset: usize) -> (r: Option<PlatformCapabilityDescriptor>)
        ensures
            match r {
                Option::Some(v) => {
                    &&& Self::valid_at_spec(region@, offset as int)
                    &&& v.offset == offset
                    &&& v.length == region@[offset as int]
                    &&& v.uuid_bytes@ =~= region@.subrange(offset + 4, offset + 20)
                },
                Option::None => !Self::valid_at_spec(region@, offset as int),
            },
    {
        if !check_typed_record(region, offset, 16, 20) {
            return Option::None;
        }
        let n = region.len();
        proof {
            assert(offset + 20 <= n);
        }
        if region[offset + 2] != 5 {
            return Option::None;
        }
        let mut id: Vec<u8> = Vec::new();
        let mut k: usize = 0;
        while k < 16
            invariant
                0 <= k <= 16,
                offset + 20 <= n,
                n == region@.len(),
                id@.len() == k,
                forall|j: int| 0 <= j < k ==> id@[j] == region@[offset + 4 + j],
            decreases 16 - k,
        {
            id.push(region[offset + 4 + k]);
            k = k + 1;
        }
        proof {
            assert(id@ =~= region@.subrange(offset + 4, offset + 20));
        }
        Option::Some(
            PlatformCapabilityDescriptor { offset, length: region[offset], uuid_bytes: id },
        )
    }

    pub fn length(&self) -> (r: u8)
        ensures
            r == self.length,
    {
        self.length
    }

    pub fn descriptor_type(&self) -> (r: DescriptorType)
        ensures
            r == DescriptorType::DeviceCapability,
    {
        DescriptorType::DeviceCapability
    }

    pub fn device_capability_type(&self) -> (r: DeviceCapabilityType)
        ensures
            r == DeviceCapabilityType::Platform,
    {
        DeviceCapabilityType::Platform
    }

    /// The 16-byte platform capability identifier.
    pub fn platform_capability_uuid(&self) -> (r: &Vec<u8>)
        ensures
            r@ == self.uuid_bytes@,
    {
        &self.uuid_bytes
    }
}

/// How the identifier-filtered platform walk follows the kind-filtered
/// one: up to the kind-filtered walk's first yield the two agree, and the
/// yielded record joins the identifier-filtered walk exactly when its
/// identifier matches.
proof fn lemma_uuid_walk_follows_typed(region: Seq<u8>, i: int, want: u8, u: Seq<u8>)
    requires
        0 <= i,
    ensures
        ({
            let typed = capability_offsets_spec(region, i, Option::Some(want), Option::None);
            let full = capability_offsets_spec(region, i, Option::Some(want), Option::Some(u));
            &&& typed.len() == 0 ==> full.len() == 0
            &&& typed.len() > 0 ==> {
                let o = typed[0];
                if capability_matches_spec(region, o, Option::Some(want), Option::Some(u)) {
                    full =~= seq![o] + capability_offsets_spec(
                        region,
                        o + region[o],
                        Option::Some(want),
                        Option::Some(u),
                    )
                } else {
                    full =~= capability_offsets_spec(
                        region,
                        o + region[o],
                        Option::Some(want),
                        Option::Some(u),
                    )
                }
            }
        }),
    decreases region.len() - i,
{
    if record_at_spec(region, i) {
        if !capability_matches_spec(region, i, Option::Some(want), Option::None) {
            lemma_uuid_walk_follows_typed(region, i + region[i], want, u);
        }
    }
}

impl CapabilityDescriptor {
    /// The first USB 2.0 extension capability of this container, if any.
    pub fn usb_20_extension_device_capability_descriptor(&self, region: &[u8]) -> (r: Option<
        DeviceCapabilityUsb2Extension,
    >)
        requires
            Self::parse_spec(region@, self.offset as int) == Option::Some(*self),
        ensures
            match first_capability_spec(region@, self.body_spec(), 2) {
                Option::Some(o) => r == DeviceCapabilityUsb2Extension::parse_spec(region@, o),
                Option::None => r is None,
            },
    {
        let mut walker = self.capabilities_with_type(region, 2);
        match walker.next() {
            Option::Some(cap) => DeviceCapabilityUsb2Extension::parse(region, cap.offset),
            Option::None => Option::None,
        }
    }

    /// The first SuperSpeed capability of this container, if any.
    pub fn super_speed_device_capability_descriptor(&self, region: &[u8]) -> (r: Option<
        DeviceCapabilitySS,
    >)
        requires
            Self::parse_spec(region@, self.offset as int) == Option::Some(*self),
        ensures
            match first_capability_spec(region@, self.body_spec(), 3) {
                Option::Some(o) => r == DeviceCapabilitySS::parse_spec(region@, o),
                Option::None => r is None,
            },
    {
        let mut walker = self.capabilities_with_type(region, 3);
        match walker.next() {
            Option::Some(cap) => DeviceCapabilitySS::parse(region, cap.offset),
            Option::None => Option::None,
        }
    }

    /// The first SuperSpeedPlus capability of this container, if any.
    pub fn super_speed_plus_capability_descriptor(&self, region: &[u8]) -> (r: Option<
        DeviceCapabilitySSP,
    >)
        requires
            Self::parse_spec(region@, self.offset as int) == Option::Some(*self),
        ensures
            match first_capability_spec(region@, self.body_spec(), 10) {
                Option::Some(o) => r is Some <==> DeviceCapabilitySSP::valid_at_spec(region@, o),
                Option::None => r is None,
            },
            r is Some ==> first_capability_spec(region@, self.body_spec(), 10) is Some
                && r->0.sublink_speed_attrs@ =~= sublink_attrs_spec(
                region@,
                first_capability_spec(region@, self.body_spec(), 10)->0,
            ),
    {
        let mut walker = self.capabilities_with_type(region, 10);
        match walker.next() {
            Option::Some(cap) => DeviceCapabilitySSP::parse(region, cap.offset),
            Option::None => Option::None,
        }
    }

    /// The first container-identifier capability of this container, if
    /// any.
    pub fn container_id_descriptor(&self, region: &[u8]) -> (r: Option<DeviceCapabilityContainerId>)
        requires
            Self::parse_spec(region@, self.offset as int) == Option::Some(*self),
        ensures
            match first_capability_spec(region@, self.body_spec(), 4) {
                Option::Some(o) => r is Some <==> DeviceCapabilityContainerId::valid_at_spec(
                    region@,
                    o,
                ),
                Option::None => r is None,
            },
            r is Some ==> first_capability_spec(region@, self.body_spec(), 4) is Some
                && r->0.container_id_bytes@ =~= region@.subrange(
                first_capability_spec(region@, self.body_spec(), 4)->0 + 4,
                first_capability_spec(region@, self.body_spec(), 4)->0 + 20,
            ),
    {
        let mut walker = self.capabilities_with_type(region, 4);
        match walker.next() {
            Option::Some(cap) => DeviceCapabilityContainerId::parse(region, cap.offset),
            Option::None => Option::None,
        }
    }

    /// The first platform capability of this container — when an
    /// identifier is given, the first whose identifier matches it.
    pub fn platform_capability_descriptor(&self, region: &[u8], uuid: Option<&[u8]>) -> (r: Option<
        PlatformCapabilityDescriptor,
    >)
        requires
            Self::parse_spec(region@, self.offset as int) == Option::Some(*self),
            uuid is Some ==> uuid->0@.len() == 16,
        ensures
            r is Some ==> PlatformCapabilityDescriptor::valid_at_spec(region@, r->0.offset as int),
            r is Some && uuid is Some ==> r->0.uuid_bytes@ =~= uuid->0@,
            uuid is None ==> (match first_capability_spec(region@, self.body_spec(), 5) {
                Option::Some(o) => {
                    &&& (r is Some <==> PlatformCapabilityDescriptor::valid_at_spec(region@, o))
                    &&& r is Some ==> r->0.offset == o
                },
                Option::None => r is None,
            }),
            uuid is Some ==> ({
                let full = capability_offsets_spec(
                    region@,
                    self.body_spec(),
                    Option::Some(5u8),
                    Option::Some(uuid->0@),
                );
                &&& full.len() == 0 ==> r is None
                &&& full.len() > 0 ==> r is Some && r->0.offset == full[0]
            }),
    {
        let mut walker = self.capabilities_with_type(region, 5);
        match uuid {
            Option::None => {
                match walker.next() {
                    Option::Some(cap) => PlatformCapabilityDescriptor::parse(region, cap.offset),
                    Option::None => Option::None,
                }
            },
            Option::Some(want) => {
                let ghost full0 = capability_offsets_spec(
                    region@,
                    self.body_spec(),
                    Option::Some(5u8),
                    Option::Some(want@),
                );
                loop
                    invariant
                        walker.region == region,
                        walker.capability_type == 5,
                        want@.len() == 16,
                        uuid == Option::Some(want),
                        full0 == capability_offsets_spec(
                            region@,
                            self.body_spec(),
                            Option::Some(5u8),
                            Option::Some(want@),
                        ),
                        capability_offsets_spec(
                            region@,
                            walker.pos as int,
                            Option::Some(5u8),
                            Option::Some(want@),
                        ) =~= full0,
                    decreases walker.remaining_spec().len(),
                {
                    let ghost pos_before = walker.pos as int;
                    proof {
                        lemma_uuid_walk_follows_typed(region@, pos_before, 5, want@);
                    }
                    match walker.next() {
                        Option::Some(cap) => {
                            let matched = match PlatformCapabilityDescriptor::parse(
                                region,
                                cap.offset,
                            ) {
                                Option::Some(v) => {
                                    let n = region.len();
                                    proof {
                                        assert(v.offset + 20 <= n);
                                    }
                                    if bytes_match_at(region, v.offset + 4, want) {
                                        proof {
                                            assert(v.uuid_bytes@ =~= want@);
                                            assert(capability_matches_spec(
                                                region@,
                                                cap.offset as int,
                                                Option::Some(5u8),
                                                Option::Some(want@),
                                            ));
                                            assert(full0.len() > 0 && full0[0] == cap.offset);
                                        }
                                        Option::Some(v)
                                    } else {
                                        proof {
                                            assert(region@.subrange(
                                                cap.offset + 4,
                                                cap.offset + 20,
                                            ) != want@);
                                        }
                                        Option::None
                                    }
                                },
                                Option::None => {
                                    // The record is too short to carry an
                                    // identifier, so it cannot match one.
                                    Option::None
                                },
                            };
                            if let Option::Some(v) = matched {
                                proof {
                                    assert(uuid->0 == want);
                                    assert(capability_offsets_spec(
                                        region@,
                                        self.body_spec(),
                                        Option::Some(5u8),
                                        Option::Some(uuid->0@),
                                    ) =~= full0);
                                }
                                return Option::Some(v);
                            }
                            proof {
                                assert(!capability_matches_spec(
                                    region@,
                                    cap.offset as int,
                                    Option::Some(5u8),
                                    Option::Some(want@),
                                ));
                            }
                        },
                        Option::None => {
                            proof {
                                assert(full0.len() == 0);
                                assert(uuid->0 == want);
                                assert(capability_offsets_spec(
                                    region@,
                                    self.body_spec(),
                                    Option::Some(5u8),
                                    Option::Some(uuid->0@),
                                ) =~= full0);
                            }
                            return Option::None;
                        },
                    }
                }
            },
        }
    }
}


/// One alternate-mode entry of a billboard capability.
#[derive(Clone, Copy, PartialEq, Eq, Structural, Debug)]
pub struct DeviceCapabilityBillboardAltConfiguration {
    pub svid: u16,
    pub altenate_mode: u8,
    pub alternate_mode_setting: u8,
}

/// The alternate-mode entry at byte offset `j`.
pub open spec fn billboard_alt_config_at_spec(region: Seq<u8>, j: int)
    -> DeviceCapabilityBillboardAltConfiguration {
    DeviceCapabilityBillboardAltConfiguration {
        svid: le16_at_spec(region, j),
        altenate_mode: region[j + 2],
        alternate_mode_setting: region[j + 3],
    }
}

impl DeviceCapabilityBillboardAltConfiguration {
    /// The standard or vendor identifier of the alternate mode.
    pub fn svid(&self) -> (r: u16)
        ensures
            r == self.svid,
    {
        self.svid
    }

    /// The alternate mode's index within its standard.
    pub fn altenate_mode(&self) -> (r: u8)
        ensures
            r == self.altenate_mode,
    {
        self.altenate_mode
    }

    /// The string index for the alternate mode's settings.
    pub fn alternate_mode_setting(&self) -> (r: u8)
        ensures
            r == self.alternate_mode_setting,
    {
        self.alternate_mode_setting
    }
}

/// The billboard capability: the fixed 44-byte header followed by one
/// 4-byte entry per alternate mode.
#[derive(Clone, PartialEq, Eq, Debug)]
pub struct DeviceCapabilityBillboard {
    pub offset: usize,
    pub length: u8,
    pub additional_info_url: u8,
    pub alternate_modes_count: u8,
    pub preferred_alternate_mode: u8,
    pub connection_power: u16,
    pub configured: Vec<u8>,
    pub bcd_version: u16,
    pub additional_failure_info: u8,
    pub alt_configs: Vec<DeviceCapabilityBillboardAltConfiguration>,
}

impl DeviceCapabilityBillboard {
    /// Whether a billboard capability begins at `i` whose declared length
    /// covers every alternate-mode entry it counts.
    pub open spec fn valid_at_spec(region: Seq<u8>, i: int) -> bool {
        &&& typed_record_at_spec(region, i, 16, 44)
        &&& region[i + 2] == 13
        &&& record_len_spec(region, i) >= 44 + 4 * region[i + 4]
    }

    /// Parse the record at `offset` as a billboard capability.
    pub fn parse(region: &[u8], offset: usize) -> (r: Option<DeviceCapabilityBillboard>)
        ensures
            match r {
                Option::Some(v) => {
                    &&& Self::valid_at_spec(region@, offset as int)
                    &&& v.offset == offset
                    &&& v.length == region@[offset as int]
                    &&& v.additional_info_url == region@[offset + 3]
                    &&& v.alternate_modes_count == region@[offset + 4]
                    &&& v.preferred_alternate_mode == region@[offset + 5]
                    &&& v.connection_power == le16_at_spec(region@, offset + 6)
                    &&& v.configured@ =~= region@.subrange(offset + 8, offset + 40)
                    &&& v.bcd_version == le16_at_spec(region@, offset + 40)
                    &&& v.additional_failure_info == region@[offset + 42]
                    &&& v.alt_configs@.len() == region@[offset + 4]
                    &&& forall|k: int|
                        0 <= k < v.alt_configs@.len() ==> v.alt_configs@[k]
                            == billboard_alt_config_at_spec(region@, offset + 44 + 4 * k)
                },
                Option::None => !Self::valid_at_spec(region@, offset as int),
            },
    {
        if !check_typed_record(region, offset, 16, 44) {
            return Option::None;
        }
        let n = region.len();
        proof {
            assert(offset + 44 <= n);
        }
        if region[offset + 2] != 13 {
            return Option::None;
        }
        let count: usize = region[offset + 4] as usize;
        let len = region[offset] as usize;
        if len < 44 + 4 * count {
            return Option::None;
        }
        proof {
            assert(offset + len <= n);
        }
        let mut configured: Vec<u8> = Vec::new();
        let mut k: usize = 0;
        while k < 32
            invariant
                0 <= k <= 32,
                offset + 44 <= n,
                n == region@.len(),
                configured@.len() == k,
                forall|j: int| 0 <= j < k ==> configured@[j] == region@[offset + 8 + j],
            decreases 32 - k,
        {
            configured.push(region[offset + 8 + k]);
            k = k + 1;
        }
        proof {
            assert(configured@ =~= region@.subrange(offset + 8, offset + 40));
        }
        let mut alt_configs: Vec<DeviceCapabilityBillboardAltConfiguration> = Vec::new();
        let mut m: usize = 0;
        while m < count
            invariant
                0 <= m <= count,
                offset + 44 + 4 * count <= n,
                n == region@.len(),
                alt_configs@.len() == m,
                forall|j: int|
                    0 <= j < m ==> alt_configs@[j] == billboard_alt_config_at_spec(
                        region@,
                        offset + 44 + 4 * j,
                    ),
            decreases count - m,
        {
            let j = offset + 44 + 4 * m;
            alt_configs.push(
                DeviceCapabilityBillboardAltConfiguration {
                    svid: le16_at(region, j),
                    altenate_mode: region[j + 2],
                    alternate_mode_setting: region[j + 3],
                },
            );
            m = m + 1;
        }
        Option::Some(
            DeviceCapabilityBillboard {
                offset,
                length: region[offset],
                additional_info_url: region[offset + 3],
                alternate_modes_count: region[offset + 4],
                preferred_alternate_mode: region[offset + 5],
                connection_power: le16_at(region, offset + 6),
                configured,
                bcd_version: le16_at(region, offset + 40),
                additional_failure_info: region[offset + 42],
                alt_configs,
            },
        )
    }

    pub fn length(&self) -> (r: u8)
        ensures
            r == self.length,
    {
        self.length
    }

    pub fn descriptor_type(&self) -> (r: DescriptorType)
        ensures
            r == DescriptorType::DeviceCapability,
    {
        DescriptorType::DeviceCapability
    }

    pub fn device_capability_type(&self) -> (r: DeviceCapabilityType)
        ensures
            r == DeviceCapabilityType::Billboard,
    {
        DeviceCapabilityType::Billboard
    }

    /// The string index for further product information.
    pub fn additional_info_url(&self) -> (r: u8)
        ensures
            r == self.additional_info_url,
    {
        self.additional_info_url
    }

    pub fn alternate_modes_count(&self) -> (r: u8)
        ensures
            r == self.alternate_modes_count,
    {
        self.alternate_modes_count
    }

    pub fn preferred_alternate_mode(&self) -> (r: u8)
        ensures
            r == self.preferred_alternate_mode,
    {
        self.preferred_alternate_mode
    }

    pub fn connection_power(&self) -> (r: u16)
        ensures
            r == self.connection_power,
    {
        self.connection_power
    }

    /// The 32-byte configured-mode bitmap.
    pub fn configured(&self) -> (r: &Vec<u8>)
        ensures
            r@ == self.configured@,
    {
        &self.configured
    }

    pub fn bcd_version(&self) -> (r: u16)
        ensures
            r == self.bcd_version,
    {
        self.bcd_version
    }

    pub fn additional_failure_info(&self) -> (r: u8)
        ensures
            r == self.additional_failure_info,
    {
        self.additional_failure_info
    }

    /// The alternate-mode entries, in declaration order.
    pub fn alt_configurations(&self) -> (r: &Vec<DeviceCapabilityBillboardAltConfiguration>)
        ensures
            r@ == self.alt_configs@,
    {
        &self.alt_configs
    }
}

impl CapabilityDescriptor {
    /// The first billboard capability of this container, if any.
    pub fn billboard_descriptor(&self, region: &[u8]) -> (r: Option<DeviceCapabilityBillboard>)
        requires
            Self::parse_spec(region@, self.offset as int) == Option::Some(*self),
        ensures
            match first_capability_spec(region@, self.body_spec(), 13) {
                Option::Some(o) => r is Some <==> DeviceCapabilityBillboard::valid_at_spec(
                    region@,
                    o,
                ),
                Option::None => r is None,
            },
            r is Some ==> first_capability_spec(region@, self.body_spec(), 13) is Some
                && r->0.offset == first_capability_spec(region@, self.body_spec(), 13)->0,
    {
        let mut walker = self.capabilities_with_type(region, 13);
        match walker.next() {
            Option::Some(cap) => DeviceCapabilityBillboard::parse(region, cap.offset),
            Option::None => Option::None,
        }
    }
}


/// Any capability walker yields at most half as many records as its
/// region has bytes: capability traversal always terminates.
pub proof fn lemma_capabilities_yield_bound(w: Capabilities)
    ensures
        2 * w.remaining_spec().len() <= w.region@.len(),
{
    lemma_capability_traversal_termination(
        w.region@,
        w.pos as int,
        Option::None,
        Option::None,
    );
}

/// The yield bound of `lemma_capabilities_yield_bound`, for the
/// kind-filtered capability walker.
pub proof fn lemma_typed_capabilities_yield_bound(w: TypedCapabilities)
    ensures
        2 * w.remaining_spec().len() <= w.region@.len(),
{
    lemma_capability_traversal_termination(
        w.region@,
        w.pos as int,
        Option::Some(w.capability_type),
        Option::None,
    );
}

} // verus!

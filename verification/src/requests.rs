//! Plain value records that accompany request issuing: the option bundles
//! of a descriptor fetch, the host timestamp, and the per-frame and
//! per-transaction records of isochronous transfers.

use vstd::prelude::*;
use crate::bridge::Status;
use crate::types::DescriptorType;
use crate::types::DeviceRequestRecipientValue;
use crate::types::DeviceRequestTypeValue;
use crate::types::IsochronousTransactionOptions;

verus! {

/// A host timestamp, in the host's native ticks.
#[derive(Clone, Copy, PartialEq, Eq, Structural, Debug)]
pub struct HostTime {
    pub ticks: u64,
}

impl HostTime {
    pub fn new(ticks: u64) -> (r: HostTime)
        ensures
            r.ticks == ticks,
    {
        HostTime { ticks }
    }
}

/// The request-class options of a string or typed descriptor fetch.
#[derive(Clone, Copy, PartialEq, Eq, Structural, Debug)]
pub struct RequestOptions {
    pub request_type: DeviceRequestTypeValue,
    pub request_recipient: DeviceRequestRecipientValue,
}

impl RequestOptions {
    pub fn new(
        request_type: DeviceRequestTypeValue,
        request_recipient: DeviceRequestRecipientValue,
    ) -> (r: RequestOptions)
        ensures
            r.request_type == request_type,
            r.request_recipient == request_recipient,
    {
        RequestOptions { request_type, request_recipient }
    }
}

/// The language options of a descriptor fetch: a descriptor index, a
/// language identifier, and optionally a request class.
#[derive(Clone, Copy, PartialEq, Eq, Structural, Debug)]
pub struct LanguageOptions {
    pub index: u64,
    pub language_id: u64,
    pub request_options: Option<RequestOptions>,
}

impl LanguageOptions {
    pub fn new(index: u64, language_id: u64, request_options: Option<RequestOptions>) -> (r:
        LanguageOptions)
        ensures
            r.index == index,
            r.language_id == language_id,
            r.request_options == request_options,
    {
        LanguageOptions { index, language_id, request_options }
    }
}

/// The options of a descriptor fetch: the wanted kind, the byte length to
/// ask for, and optionally language options.
#[derive(Clone, Copy, PartialEq, Eq, Structural, Debug)]
pub struct DescriptorOptions {
    pub descriptor_type: DescriptorType,
    pub length: u64,
    pub language_options: Option<LanguageOptions>,
}

impl DescriptorOptions {
    pub fn new(
        descriptor_type: DescriptorType,
        length: u64,
        language_options: Option<LanguageOptions>,
    ) -> (r: DescriptorOptions)
        ensures
            r.descriptor_type == descriptor_type,
            r.length == length,
            r.language_options == language_options,
    {
        DescriptorOptions { descriptor_type, length, language_options }
    }
}

/// One frame of an isochronous transfer: its outcome, the bytes asked for
/// and completed, and the completion timestamp.
#[derive(Clone, Copy, PartialEq, Eq, Structural, Debug)]
pub struct IsochronousFrame {
    pub status: Status,
    pub request_count: u32,
    pub complete_count: u32,
    pub timestamp: HostTime,
}

impl IsochronousFrame {
    pub fn new(status: Status, request_count: u32, complete_count: u32, timestamp: HostTime) -> (r:
        IsochronousFrame)
        ensures
            r.status == status,
            r.request_count == request_count,
            r.complete_count == complete_count,
            r.timestamp == timestamp,
    {
        IsochronousFrame { status, request_count, complete_count, timestamp }
    }
}

/// One transaction of an isochronous transfer: a frame record with its
/// buffer offset and transfer options.
#[derive(Clone, Copy, PartialEq, Eq, Structural, Debug)]
pub struct IsochronousTransaction {
    pub status: Status,
    pub request_count: u32,
    pub offset: u32,
    pub complete_count: u32,
    pub timestamp: HostTime,
    pub options: IsochronousTransactionOptions,
}

impl IsochronousTransaction {
    pub fn new(
        status: Status,
        request_count: u32,
        offset: u32,
        complete_count: u32,
        timestamp: HostTime,
        options: IsochronousTransactionOptions,
    ) -> (r: IsochronousTransaction)
        ensures
            r.status == status,
            r.request_count == request_count,
            r.offset == offset,
            r.complete_count == complete_count,
            r.timestamp == timestamp,
            r.options == options,
    {
        IsochronousTransaction { status, request_count, offset, complete_count, timestamp, options }
    }
}

} // verus!

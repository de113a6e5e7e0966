//! The error type shared by every fallible operation of the library, and its
//! mapping to and from the numeric kernel return codes used on the wire.

use vstd::prelude::*;

verus! {

/// An error reported by the host-controller layer. The variants mirror the
/// kernel return codes delivered by the native layer one for one; `Unknown`
/// stands for every code outside that table.
#[derive(Clone, Copy, PartialEq, Eq, Structural, Debug)]
pub enum UsbError {
    InvalidAddress,
    ProtectionFailure,
    NoSpace,
    InvalidArgument,
    Failure,
    ResourceShortage,
    NotReceiver,
    NoAccess,
    MemoryFailure,
    MemoryError,
    AlreadyInSet,
    NotInSet,
    NameExists,
    Aborted,
    InvalidName,
    InvalidTask,
    InvalidRight,
    InvalidValue,
    UrefsOverflow,
    InvalidCapability,
    RightExists,
    InvalidHost,
    MemoryPresent,
    MemoryDataMoved,
    MemoryRestartCopy,
    InvalidProcessorSet,
    PolicyLimit,
    InvalidPolicy,
    InvalidObject,
    AlreadyWaiting,
    DefaultSet,
    ExceptionProtected,
    InvalidLedger,
    InvalidMemoryControl,
    InvalidSecurity,
    NotDepressed,
    Terminated,
    LockSetDestroyed,
    LockUnstable,
    LockOwned,
    LockOwnedSelf,
    SemaphoreDestroyed,
    RpcServerTerminated,
    RpcTerminateOrphan,
    RpcContinueOrphan,
    NotSupported,
    NodeDown,
    NotWaiting,
    OperationTimedOut,
    Unknown,
}

impl UsbError {
    /// The kernel return code this error stands for. `Unknown` is given a
    /// code outside the table so that decoding it yields `Unknown` again.
    pub open spec fn code_spec(self) -> i32 {
        match self {
            UsbError::InvalidAddress => 1,
            UsbError::ProtectionFailure => 2,
            UsbError::NoSpace => 3,
            UsbError::InvalidArgument => 4,
            UsbError::Failure => 5,
            UsbError::ResourceShortage => 6,
            UsbError::NotReceiver => 7,
            UsbError::NoAccess => 8,
            UsbError::MemoryFailure => 9,
            UsbError::MemoryError => 10,
            UsbError::AlreadyInSet => 11,
            UsbError::NotInSet => 12,
            UsbError::NameExists => 13,
            UsbError::Aborted => 14,
            UsbError::InvalidName => 15,
            UsbError::InvalidTask => 16,
            UsbError::InvalidRight => 17,
            UsbError::InvalidValue => 18,
            UsbError::UrefsOverflow => 19,
            UsbError::InvalidCapability => 20,
            UsbError::RightExists => 21,
            UsbError::InvalidHost => 22,
            UsbError::MemoryPresent => 23,
            UsbError::MemoryDataMoved => 24,
            UsbError::MemoryRestartCopy => 25,
            UsbError::InvalidProcessorSet => 26,
            UsbError::PolicyLimit => 27,
            UsbError::InvalidPolicy => 28,
            UsbError::InvalidObject => 29,
            UsbError::AlreadyWaiting => 30,
            UsbError::DefaultSet => 31,
            UsbError::ExceptionProtected => 32,
            UsbError::InvalidLedger => 33,
            UsbError::InvalidMemoryControl => 34,
            UsbError::InvalidSecurity => 35,
            UsbError::NotDepressed => 36,
            UsbError::Terminated => 37,
            UsbError::LockSetDestroyed => 38,
            UsbError::LockUnstable => 39,
            UsbError::LockOwned => 40,
            UsbError::LockOwnedSelf => 41,
            UsbError::SemaphoreDestroyed => 42,
            UsbError::RpcServerTerminated => 43,
            UsbError::RpcTerminateOrphan => 44,
            UsbError::RpcContinueOrphan => 45,
            UsbError::NotSupported => 46,
            UsbError::NodeDown => 47,
            UsbError::NotWaiting => 48,
            UsbError::OperationTimedOut => 49,
            UsbError::Unknown => 0,
        }
    }

    /// The error a kernel return code decodes to.
    pub open spec fn from_code_spec(code: i32) -> UsbError {
        match code {
            1i32 => UsbError::InvalidAddress,
            2i32 => UsbError::ProtectionFailure,
            3i32 => UsbError::NoSpace,
            4i32 => UsbError::InvalidArgument,
            5i32 => UsbError::Failure,
            6i32 => UsbError::ResourceShortage,
            7i32 => UsbError::NotReceiver,
            8i32 => UsbError::NoAccess,
            9i32 => UsbError::MemoryFailure,
            10i32 => UsbError::MemoryError,
            11i32 => UsbError::AlreadyInSet,
            12i32 => UsbError::NotInSet,
            13i32 => UsbError::NameExists,
            14i32 => UsbError::Aborted,
            15i32 => UsbError::InvalidName,
            16i32 => UsbError::InvalidTask,
            17i32 => UsbError::InvalidRight,
            18i32 => UsbError::InvalidValue,
            19i32 => UsbError::UrefsOverflow,
            20i32 => UsbError::InvalidCapability,
            21i32 => UsbError::RightExists,
            22i32 => UsbError::InvalidHost,
            23i32 => UsbError::MemoryPresent,
            24i32 => UsbError::MemoryDataMoved,
            25i32 => UsbError::MemoryRestartCopy,
            26i32 => UsbError::InvalidProcessorSet,
            27i32 => UsbError::PolicyLimit,
            28i32 => UsbError::InvalidPolicy,
            29i32 => UsbError::InvalidObject,
            30i32 => UsbError::AlreadyWaiting,
            31i32 => UsbError::DefaultSet,
            32i32 => UsbError::ExceptionProtected,
            33i32 => UsbError::InvalidLedger,
            34i32 => UsbError::InvalidMemoryControl,
            35i32 => UsbError::InvalidSecurity,
            36i32 => UsbError::NotDepressed,
            37i32 => UsbError::Terminated,
            38i32 => UsbError::LockSetDestroyed,
            39i32 => UsbError::LockUnstable,
            40i32 => UsbError::LockOwned,
            41i32 => UsbError::LockOwnedSelf,
            42i32 => UsbError::SemaphoreDestroyed,
            43i32 => UsbError::RpcServerTerminated,
            44i32 => UsbError::RpcTerminateOrphan,
            45i32 => UsbError::RpcContinueOrphan,
            46i32 => UsbError::NotSupported,
            47i32 => UsbError::NodeDown,
            48i32 => UsbError::NotWaiting,
            49i32 => UsbError::OperationTimedOut,
            _ => UsbError::Unknown,
        }
    }

    /// The kernel return code this error stands for.
    pub fn kern_return(&self) -> (r: i32)
        ensures
            r == self.code_spec(),
    {
        match self {
            UsbError::InvalidAddress => 1,
            UsbError::ProtectionFailure => 2,
            UsbError::NoSpace => 3,
            UsbError::InvalidArgument => 4,
            UsbError::Failure => 5,
            UsbError::ResourceShortage => 6,
            UsbError::NotReceiver => 7,
            UsbError::NoAccess => 8,
            UsbError::MemoryFailure => 9,
            UsbError::MemoryError => 10,
            UsbError::AlreadyInSet => 11,
            UsbError::NotInSet => 12,
            UsbError::NameExists => 13,
            UsbError::Aborted => 14,
            UsbError::InvalidName => 15,
            UsbError::InvalidTask => 16,
            UsbError::InvalidRight => 17,
            UsbError::InvalidValue => 18,
            UsbError::UrefsOverflow => 19,
            UsbError::InvalidCapability => 20,
            UsbError::RightExists => 21,
            UsbError::InvalidHost => 22,
            UsbError::MemoryPresent => 23,
            UsbError::MemoryDataMoved => 24,
            UsbError::MemoryRestartCopy => 25,
            UsbError::InvalidProcessorSet => 26,
            UsbError::PolicyLimit => 27,
            UsbError::InvalidPolicy => 28,
            UsbError::InvalidObject => 29,
            UsbError::AlreadyWaiting => 30,
            UsbError::DefaultSet => 31,
            UsbError::ExceptionProtected => 32,
            UsbError::InvalidLedger => 33,
            UsbError::InvalidMemoryControl => 34,
            UsbError::InvalidSecurity => 35,
            UsbError::NotDepressed => 36,
            UsbError::Terminated => 37,
            UsbError::LockSetDestroyed => 38,
            UsbError::LockUnstable => 39,
            UsbError::LockOwned => 40,
            UsbError::LockOwnedSelf => 41,
            UsbError::SemaphoreDestroyed => 42,
            UsbError::RpcServerTerminated => 43,
            UsbError::RpcTerminateOrphan => 44,
            UsbError::RpcContinueOrphan => 45,
            UsbError::NotSupported => 46,
            UsbError::NodeDown => 47,
            UsbError::NotWaiting => 48,
            UsbError::OperationTimedOut => 49,
            UsbError::Unknown => 0,
        }
    }
}

impl From<i32> for UsbError {
    /// Decode a kernel return code.
    fn from(err: i32) -> (r: UsbError) {
        match err {
            1i32 => UsbError::InvalidAddress,
            2i32 => UsbError::ProtectionFailure,
            3i32 => UsbError::NoSpace,
            4i32 => UsbError::InvalidArgument,
            5i32 => UsbError::Failure,
            6i32 => UsbError::ResourceShortage,
            7i32 => UsbError::NotReceiver,
            8i32 => UsbError::NoAccess,
            9i32 => UsbError::MemoryFailure,
            10i32 => UsbError::MemoryError,
            11i32 => UsbError::AlreadyInSet,
            12i32 => UsbError::NotInSet,
            13i32 => UsbError::NameExists,
            14i32 => UsbError::Aborted,
            15i32 => UsbError::InvalidName,
            16i32 => UsbError::InvalidTask,
            17i32 => UsbError::InvalidRight,
            18i32 => UsbError::InvalidValue,
            19i32 => UsbError::UrefsOverflow,
            20i32 => UsbError::InvalidCapability,
            21i32 => UsbError::RightExists,
            22i32 => UsbError::InvalidHost,
            23i32 => UsbError::MemoryPresent,
            24i32 => UsbError::MemoryDataMoved,
            25i32 => UsbError::MemoryRestartCopy,
            26i32 => UsbError::InvalidProcessorSet,
            27i32 => UsbError::PolicyLimit,
            28i32 => UsbError::InvalidPolicy,
            29i32 => UsbError::InvalidObject,
            30i32 => UsbError::AlreadyWaiting,
            31i32 => UsbError::DefaultSet,
            32i32 => UsbError::ExceptionProtected,
            33i32 => UsbError::InvalidLedger,
            34i32 => UsbError::InvalidMemoryControl,
            35i32 => UsbError::InvalidSecurity,
            36i32 => UsbError::NotDepressed,
            37i32 => UsbError::Terminated,
            38i32 => UsbError::LockSetDestroyed,
            39i32 => UsbError::LockUnstable,
            40i32 => UsbError::LockOwned,
            41i32 => UsbError::LockOwnedSelf,
            42i32 => UsbError::SemaphoreDestroyed,
            43i32 => UsbError::RpcServerTerminated,
            44i32 => UsbError::RpcTerminateOrphan,
            45i32 => UsbError::RpcContinueOrphan,
            46i32 => UsbError::NotSupported,
            47i32 => UsbError::NodeDown,
            48i32 => UsbError::NotWaiting,
            49i32 => UsbError::OperationTimedOut,
            _ => UsbError::Unknown,
        }
    }
}

impl vstd::std_specs::convert::FromSpecImpl<i32> for UsbError {
    open spec fn obeys_from_spec() -> bool {
        true
    }

    open spec fn from_spec(err: i32) -> UsbError {
        UsbError::from_code_spec(err)
    }
}

/// Decoding a tabled kernel return code and encoding the result again gives
/// the code back; every code outside the table decodes to `Unknown`.
pub proof fn lemma_code_round_trip(code: i32)
    ensures
        1 <= code <= 49 ==> UsbError::from_code_spec(code).code_spec() == code,
        !(1 <= code <= 49) ==> UsbError::from_code_spec(code) == UsbError::Unknown,
{
}

/// Every error that stands for a tabled code decodes from its own code.
pub proof fn lemma_error_round_trip(err: UsbError)
    ensures
        UsbError::from_code_spec(err.code_spec()) == err || err == UsbError::Unknown,
{
}

} // verus!

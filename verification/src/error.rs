//! What can go wrong on the host side.

use vstd::prelude::*;

verus! {

/// Why a hardware description could not be encoded.
#[derive(Clone, Copy, Debug, PartialEq, Eq, Structural)]
pub enum EncodingError {
    /// A text holds a zero byte.
    InvalidString,
    /// A property name is empty, too long or holds a character that no
    /// property name may hold.
    InvalidPropertyName,
    /// A node name is malformed.
    InvalidNodeName,
    /// The length of a property value does not fit 32 bits.
    PropertyValueTooLarge,
    /// The length of the blob does not fit 32 bits.
    TotalSizeTooLarge,
    /// Nodes were nested too deeply, or opened, filled and closed out of order.
    Structure,
}

/// The library's name for a failure of the devicetree writer.
pub open spec fn encoding_error_of(e: vm_fdt::Error) -> EncodingError {
    match e {
        vm_fdt::Error::InvalidString => EncodingError::InvalidString,
        vm_fdt::Error::InvalidPropertyName => EncodingError::InvalidPropertyName,
        vm_fdt::Error::InvalidNodeName => EncodingError::InvalidNodeName,
        vm_fdt::Error::PropertyValueTooLarge => EncodingError::PropertyValueTooLarge,
        vm_fdt::Error::TotalSizeTooLarge => EncodingError::TotalSizeTooLarge,
        _ => EncodingError::Structure,
    }
}

impl EncodingError {
    /// Names a failure of the devicetree writer.
    pub fn from_writer(e: vm_fdt::Error) -> (kind: EncodingError)
        ensures
            kind == encoding_error_of(e),
    {
        match e {
            vm_fdt::Error::InvalidString => EncodingError::InvalidString,
            vm_fdt::Error::InvalidPropertyName => EncodingError::InvalidPropertyName,
            vm_fdt::Error::InvalidNodeName => EncodingError::InvalidNodeName,
            vm_fdt::Error::PropertyValueTooLarge => EncodingError::PropertyValueTooLarge,
            vm_fdt::Error::TotalSizeTooLarge => EncodingError::TotalSizeTooLarge,
            _ => EncodingError::Structure,
        }
    }

    /// A line of text for the error stream.
    pub fn message(&self) -> (text: &'static str)
        ensures
            text@ == self.message_text(),
    {
        match self {
            EncodingError::InvalidString => "strings cannot contain NUL",
            EncodingError::InvalidPropertyName => "invalid property name",
            EncodingError::InvalidNodeName => "invalid node name",
            EncodingError::PropertyValueTooLarge => "property value size must fit in 32 bits",
            EncodingError::TotalSizeTooLarge => "total size must fit in 32 bits",
            EncodingError::Structure => "devicetree nodes written out of order",
        }
    }

    pub open spec fn message_text(&self) -> Seq<char> {
        match self {
            EncodingError::InvalidString => "strings cannot contain NUL"@,
            EncodingError::InvalidPropertyName => "invalid property name"@,
            EncodingError::InvalidNodeName => "invalid node name"@,
            EncodingError::PropertyValueTooLarge => "property value size must fit in 32 bits"@,
            EncodingError::TotalSizeTooLarge => "total size must fit in 32 bits"@,
            EncodingError::Structure => "devicetree nodes written out of order"@,
        }
    }
}

/// Why the host refuses to go on. None of these is retried: each ends the
/// context in which it arises, and with it the whole process.
#[derive(Clone, Copy, Debug, PartialEq, Eq, Structural)]
pub enum HostError {
    /// The run was configured with values that cannot be used.
    Configuration,
    /// The hardware description could not be built.
    Encoding(EncodingError),
    /// A host call named bytes outside the guest's linear memory.
    MemoryRange { offset: usize, len: usize, size: usize },
    /// An execution context was asked for before the template was published.
    Instantiation,
}

impl HostError {
    /// A line of text for the error stream.
    pub fn message(&self) -> (text: &'static str)
        ensures
            text@ == self.message_text(),
    {
        match self {
            HostError::Configuration => "invalid configuration",
            HostError::Encoding(kind) => kind.message(),
            HostError::MemoryRange { .. } => "guest memory access out of bounds",
            HostError::Instantiation => "no instantiation template has been published",
        }
    }

    pub open spec fn message_text(&self) -> Seq<char> {
        match self {
            HostError::Configuration => "invalid configuration"@,
            HostError::Encoding(kind) => kind.message_text(),
            HostError::MemoryRange { .. } => "guest memory access out of bounds"@,
            HostError::Instantiation => "no instantiation template has been published"@,
        }
    }
}

} // verus!

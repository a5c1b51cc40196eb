//! What must be known of a file before its pages are read.

use vstd::prelude::*;
use crate::sas::alignment::Alignment;
use crate::sas::compression::Compression;
use crate::sas::endianness::Endianness;

verus! {

/// What must be known of a file before its pages can be read.
#[derive(Debug, PartialEq, Eq, Structural, Clone, Copy)]
pub struct SasMetadata {
    pub endianness: Endianness,
    pub alignment: Alignment,
    pub compression: Compression,
}

/// Why a builder could not build.
#[derive(Debug, PartialEq, Eq, Clone, Copy)]
pub enum SasMetadataBuilderError {
    /// A field was never set; holds the field's name.
    UninitializedField(&'static str),
}

/// Collects the fields of a [`SasMetadata`] one by one.
#[derive(Debug, PartialEq, Eq, Structural, Clone, Copy)]
pub struct SasMetadataBuilder {
    pub endianness: Option<Endianness>,
    pub alignment: Option<Alignment>,
    pub compression: Option<Compression>,
}

impl SasMetadata {
    /// A builder in which no field is set.
    pub fn builder() -> (r: SasMetadataBuilder)
        ensures
            r == (SasMetadataBuilder { endianness: None, alignment: None, compression: None }),
    {
        SasMetadataBuilder { endianness: None, alignment: None, compression: None }
    }
}

impl SasMetadataBuilder {
    /// Sets the byte order.
    pub fn endianness(&mut self, value: Endianness) -> (r: &mut Self)
        ensures
            *r == (SasMetadataBuilder { endianness: Some(value), ..*old(self) }),
            *final(self) == *final(r),
    {
        self.endianness = Some(value);
        self
    }

    /// Sets the alignment.
    pub fn alignment(&mut self, value: Alignment) -> (r: &mut Self)
        ensures
            *r == (SasMetadataBuilder { alignment: Some(value), ..*old(self) }),
            *final(self) == *final(r),
    {
        self.alignment = Some(value);
        self
    }

    /// Sets the compression mode.
    pub fn compression(&mut self, value: Compression) -> (r: &mut Self)
        ensures
            *r == (SasMetadataBuilder { compression: Some(value), ..*old(self) }),
            *final(self) == *final(r),
    {
        self.compression = Some(value);
        self
    }

    /// The name of the first field that is not set, in the order byte order,
    /// alignment, compression.
    pub open spec fn first_unset(self) -> Option<Seq<char>> {
        if self.endianness is None {
            Some("endianness"@)
        } else if self.alignment is None {
            Some("alignment"@)
        } else if self.compression is None {
            Some("compression"@)
        } else {
            None
        }
    }

    /// The metadata, once every field is set. Else the error names the first
    /// field that is not.
    pub fn build(&self) -> (r: Result<SasMetadata, SasMetadataBuilderError>)
        ensures
            match r {
                Ok(metadata) => self.first_unset() is None && metadata == (SasMetadata {
                    endianness: self.endianness->Some_0,
                    alignment: self.alignment->Some_0,
                    compression: self.compression->Some_0,
                }),
                Err(SasMetadataBuilderError::UninitializedField(name)) => self.first_unset()
                    == Some(name@),
            },
    {
        let endianness = match self.endianness {
            Some(endianness) => endianness,
            None => {
                return Err(SasMetadataBuilderError::UninitializedField("endianness"));
            },
        };
        let alignment = match self.alignment {
            Some(alignment) => alignment,
            None => {
                return Err(SasMetadataBuilderError::UninitializedField("alignment"));
            },
        };
        let compression = match self.compression {
            Some(compression) => compression,
            None => {
                return Err(SasMetadataBuilderError::UninitializedField("compression"));
            },
        };
        Ok(SasMetadata { endianness, alignment, compression })
    }
}

} // verus!

//! Byte sizes and their human-readable form.
use vstd::prelude::*;

verus! {

/// Binary size units from bytes to pebibytes.
#[derive(Debug, Copy, Clone, PartialEq, Eq, Structural)]
pub enum SizeUnit {
    Byte,
    KibiByte,
    MebiByte,
    GibiByte,
    TebiByte,
    PebiByte,
}

impl SizeUnit {
    /// The unit's short name.
    pub fn short_name(&self) -> (r: &'static str)
        ensures
            r@ == (match *self {
                SizeUnit::Byte => "B"@,
                SizeUnit::KibiByte => "KiB"@,
                SizeUnit::MebiByte => "MiB"@,
                SizeUnit::GibiByte => "GiB"@,
                SizeUnit::TebiByte => "TiB"@,
                SizeUnit::PebiByte => "PiB"@,
            }),
    {
        match *self {
            SizeUnit::Byte => "B",
            SizeUnit::KibiByte => "KiB",
            SizeUnit::MebiByte => "MiB",
            SizeUnit::GibiByte => "GiB",
            SizeUnit::TebiByte => "TiB",
            SizeUnit::PebiByte => "PiB",
        }
    }

    /// The largest byte count shown under this unit.
    pub fn max(&self) -> (r: u128)
        ensures
            r == spec_unit_max(*self),
    {
        match *self {
            SizeUnit::Byte => 1_023,
            SizeUnit::KibiByte => 1_048_575,
            SizeUnit::MebiByte => 1_073_741_823,
            SizeUnit::GibiByte => 1_099_511_627_775,
            SizeUnit::TebiByte => 1_125_899_906_842_623,
            SizeUnit::PebiByte => 1_152_921_504_606_846_975,
        }
    }

    /// The smallest byte count shown under this unit.
    pub fn min(&self) -> (r: u128)
        ensures
            r == spec_unit_min(*self),
    {
        match *self {
            SizeUnit::Byte => 0,
            SizeUnit::KibiByte => 1_024,
            SizeUnit::MebiByte => 1_048_576,
            SizeUnit::GibiByte => 1_073_741_824,
            SizeUnit::TebiByte => 1_099_511_627_776,
            SizeUnit::PebiByte => 1_125_899_906_842_624,
        }
    }

    /// How many times 1024 divides this unit.
    pub fn multiplier(&self) -> (r: u32)
        ensures
            r == (match *self {
                SizeUnit::Byte => 0int,
                SizeUnit::KibiByte => 1int,
                SizeUnit::MebiByte => 2int,
                SizeUnit::GibiByte => 3int,
                SizeUnit::TebiByte => 4int,
                SizeUnit::PebiByte => 5int,
            }),
    {
        match *self {
            SizeUnit::Byte => 0,
            SizeUnit::KibiByte => 1,
            SizeUnit::MebiByte => 2,
            SizeUnit::GibiByte => 3,
            SizeUnit::TebiByte => 4,
            SizeUnit::PebiByte => 5,
        }
    }
}

/// Upper end of a unit's bracket, in bytes.
pub open spec fn spec_unit_max(u: SizeUnit) -> int {
    match u {
        SizeUnit::Byte => 1_023,
        SizeUnit::KibiByte => 1_048_575,
        SizeUnit::MebiByte => 1_073_741_823,
        SizeUnit::GibiByte => 1_099_511_627_775,
        SizeUnit::TebiByte => 1_125_899_906_842_623,
        SizeUnit::PebiByte => 1_152_921_504_606_846_975,
    }
}

/// Lower end of a unit's bracket, in bytes.
pub open spec fn spec_unit_min(u: SizeUnit) -> int {
    match u {
        SizeUnit::Byte => 0,
        SizeUnit::KibiByte => 1_024,
        SizeUnit::MebiByte => 1_048_576,
        SizeUnit::GibiByte => 1_073_741_824,
        SizeUnit::TebiByte => 1_099_511_627_776,
        SizeUnit::PebiByte => 1_125_899_906_842_624,
    }
}

/// Bytes in one step of a unit: 1024 to the unit's multiplier.
pub open spec fn spec_unit_divisor(u: SizeUnit) -> int {
    match u {
        SizeUnit::Byte => 1,
        SizeUnit::KibiByte => 1_024,
        SizeUnit::MebiByte => 1_048_576,
        SizeUnit::GibiByte => 1_073_741_824,
        SizeUnit::TebiByte => 1_099_511_627_776,
        SizeUnit::PebiByte => 1_125_899_906_842_624,
    }
}

/// The unit whose bracket holds `n` bytes; nothing above the pebibyte range.
pub open spec fn spec_preferred_unit(n: int) -> Option<SizeUnit> {
    if n <= spec_unit_max(SizeUnit::Byte) {
        Some(SizeUnit::Byte)
    } else if n <= spec_unit_max(SizeUnit::KibiByte) {
        Some(SizeUnit::KibiByte)
    } else if n <= spec_unit_max(SizeUnit::MebiByte) {
        Some(SizeUnit::MebiByte)
    } else if n <= spec_unit_max(SizeUnit::GibiByte) {
        Some(SizeUnit::GibiByte)
    } else if n <= spec_unit_max(SizeUnit::TebiByte) {
        Some(SizeUnit::TebiByte)
    } else if n <= spec_unit_max(SizeUnit::PebiByte) {
        Some(SizeUnit::PebiByte)
    } else {
        None
    }
}

/// The unit whose bracket holds `n` bytes.
pub fn preferred_size_unit(n: u128) -> (r: Option<SizeUnit>)
    ensures
        r == spec_preferred_unit(n as int),
{
    if n <= 1_023 {
        Some(SizeUnit::Byte)
    } else if n <= 1_048_575 {
        Some(SizeUnit::KibiByte)
    } else if n <= 1_073_741_823 {
        Some(SizeUnit::MebiByte)
    } else if n <= 1_099_511_627_775 {
        Some(SizeUnit::GibiByte)
    } else if n <= 1_125_899_906_842_623 {
        Some(SizeUnit::TebiByte)
    } else if n <= 1_152_921_504_606_846_975 {
        Some(SizeUnit::PebiByte)
    } else {
        None
    }
}

/// Why a raw value is no valid size.
#[derive(Debug, Copy, Clone, PartialEq, Eq, Structural)]
pub enum SizeError {
    /// The raw value was negative.
    Negative,
    /// The value exceeds the largest displayable bracket.
    TooLarge,
}

/// A byte count.
#[derive(Debug, Copy, Clone, PartialEq, Eq, Structural)]
pub struct Size {
    in_bytes: u128,
}

impl View for Size {
    type V = int;

    closed spec fn view(&self) -> int {
        self.in_bytes as int
    }
}

impl Size {
    pub fn new(in_bytes: u128) -> (r: Size)
        ensures
            r@ == in_bytes,
    {
        Size { in_bytes }
    }

    /// The raw byte count.
    pub fn bytes(&self) -> (r: u128)
        ensures
            r == self@,
    {
        self.in_bytes
    }

    /// A size from a raw (possibly negative) byte count.
    pub fn try_from(value: i64) -> (r: Result<Size, SizeError>)
        ensures
            value >= 0 ==> (r matches Ok(s) && s@ == value),
            value < 0 ==> r == Err::<Size, SizeError>(SizeError::Negative),
    {
        if value >= 0 {
            Ok(Size::new(value as u128))
        } else {
            Err(SizeError::Negative)
        }
    }
}

/// A byte count scaled into its preferred unit.
#[derive(Debug, Copy, Clone, PartialEq, Eq, Structural)]
pub struct HumanReadableSize {
    pub size: u128,
    pub unit: SizeUnit,
}

impl HumanReadableSize {
    pub fn new(size: u128, unit: SizeUnit) -> (r: HumanReadableSize)
        ensures
            r.size == size,
            r.unit == unit,
    {
        HumanReadableSize { size, unit }
    }

    /// Scales a size into its preferred unit: the byte count divided by the
    /// unit's step, or too large when no bracket holds it.
    pub fn try_from(value: Size) -> (r: Result<HumanReadableSize, SizeError>)
        ensures
            match spec_preferred_unit(value@) {
                Some(u) => r == Ok::<HumanReadableSize, SizeError>(
                    HumanReadableSize {
                        size: (value@ / spec_unit_divisor(u)) as u128,
                        unit: u,
                    },
                ),
                None => r == Err::<HumanReadableSize, SizeError>(SizeError::TooLarge),
            },
    {
        let bytes = value.bytes();
        let unit = match preferred_size_unit(bytes) {
            Some(u) => u,
            None => {
                return Err(SizeError::TooLarge);
            },
        };
        let divisor: u128 = match unit {
            SizeUnit::Byte => 1,
            SizeUnit::KibiByte => 1_024,
            SizeUnit::MebiByte => 1_048_576,
            SizeUnit::GibiByte => 1_073_741_824,
            SizeUnit::TebiByte => 1_099_511_627_776,
            SizeUnit::PebiByte => 1_125_899_906_842_624,
        };
        let size = bytes / divisor;
        Ok(HumanReadableSize::new(size, unit))
    }
}

} // verus!

use razy_cwlogs::size::HumanReadableSize;
use razy_cwlogs::size::Size;
use razy_cwlogs::size::SizeError;
use razy_cwlogs::size::SizeUnit::Byte;
use razy_cwlogs::size::SizeUnit::GibiByte;
use razy_cwlogs::size::SizeUnit::KibiByte;
use razy_cwlogs::size::SizeUnit::MebiByte;
use razy_cwlogs::size::SizeUnit::PebiByte;
use razy_cwlogs::size::SizeUnit::TebiByte;

#[test]
fn size_unit_short_name() {
    assert_eq!("B", Byte.short_name());
    assert_eq!("KiB", KibiByte.short_name());
    assert_eq!("MiB", MebiByte.short_name());
    assert_eq!("GiB", GibiByte.short_name());
    assert_eq!("TiB", TebiByte.short_name());
    assert_eq!("PiB", PebiByte.short_name());
}

#[test]
fn size_unit_min_max() {
    assert_eq!(0, Byte.min());
    assert_eq!(1_023, Byte.max());

    assert_eq!(1_024, KibiByte.min());
    assert_eq!(1_048_575, KibiByte.max());

    assert_eq!(1_048_576, MebiByte.min());
    assert_eq!(1_073_741_823, MebiByte.max());

    assert_eq!(1_073_741_824, GibiByte.min());
    assert_eq!(1_099_511_627_775, GibiByte.max());

    assert_eq!(1_099_511_627_776, TebiByte.min());
    assert_eq!(1_125_899_906_842_623, TebiByte.max());

    assert_eq!(1_125_899_906_842_624, PebiByte.min());
    assert_eq!(1_152_921_504_606_846_975, PebiByte.max());
}

#[test]
fn size_try_from() {
    assert_eq!(Ok(Size::new(0)), Size::try_from(0));
    assert_eq!(
        Ok(Size::new(1_152_921_504_606_846_975)),
        Size::try_from(1_152_921_504_606_846_975)
    );

    // unsupported size
    assert_eq!(Err(SizeError::Negative), Size::try_from(-1));
}

#[test]
fn human_readable_size_try_from() {
    // bytes
    assert_eq!(
        Ok(HumanReadableSize::new(0, Byte)),
        HumanReadableSize::try_from(Size::new(0))
    );
    assert_eq!(
        Ok(HumanReadableSize::new(1023, Byte)),
        HumanReadableSize::try_from(Size::new(1023))
    );

    // kibi bytes
    assert_eq!(
        Ok(HumanReadableSize::new(1, KibiByte)),
        HumanReadableSize::try_from(Size::new(1024))
    );
    assert_eq!(
        Ok(HumanReadableSize::new(1, KibiByte)),
        HumanReadableSize::try_from(Size::new(2047))
    );
    assert_eq!(
        Ok(HumanReadableSize::new(2, KibiByte)),
        HumanReadableSize::try_from(Size::new(2048))
    );
    assert_eq!(
        Ok(HumanReadableSize::new(1023, KibiByte)),
        HumanReadableSize::try_from(Size::new(1_048_575))
    );

    // mebi bytes
    assert_eq!(
        Ok(HumanReadableSize::new(1, MebiByte)),
        HumanReadableSize::try_from(Size::new(1_048_576))
    );
    assert_eq!(
        Ok(HumanReadableSize::new(1023, MebiByte)),
        HumanReadableSize::try_from(Size::new(1_073_741_823))
    );

    // gibi bytes
    assert_eq!(
        Ok(HumanReadableSize::new(1, GibiByte)),
        HumanReadableSize::try_from(Size::new(1_073_741_824))
    );
    assert_eq!(
        Ok(HumanReadableSize::new(1023, GibiByte)),
        HumanReadableSize::try_from(Size::new(1_099_511_627_775))
    );

    // tebi bytes
    assert_eq!(
        Ok(HumanReadableSize::new(1, TebiByte)),
        HumanReadableSize::try_from(Size::new(1_099_511_627_776))
    );
    assert_eq!(
        Ok(HumanReadableSize::new(1023, TebiByte)),
        HumanReadableSize::try_from(Size::new(1_125_899_906_842_623))
    );

    // pebi bytes
    assert_eq!(
        Ok(HumanReadableSize::new(1, PebiByte)),
        HumanReadableSize::try_from(Size::new(1_125_899_906_842_624))
    );
    assert_eq!(
        Ok(HumanReadableSize::new(1023, PebiByte)),
        HumanReadableSize::try_from(Size::new(1_152_921_504_606_846_975))
    );

    // unsupported size
    assert_eq!(
        Err(SizeError::TooLarge),
        HumanReadableSize::try_from(Size::new(1_152_921_504_606_846_976))
    );
}

use vm::anyobject::AnyObject;
use vm::instructions::NativeTypes;

#[test]
fn value_comes_back_under_its_own_type() {
    let object = AnyObject::anonymise(42u8);
    assert_eq!(object.deanonymise::<u8>(), Some(&42u8));
    let object = AnyObject::anonymise(-7i64);
    assert_eq!(object.deanonymise::<i64>(), Some(&-7i64));
    let object = AnyObject::anonymise(true);
    assert_eq!(object.deanonymise::<bool>(), Some(&true));
    let object = AnyObject::anonymise(31usize);
    assert_eq!(object.deanonymise::<usize>(), Some(&31usize));
    let object = AnyObject::anonymise(NativeTypes::I32(-8));
    assert_eq!(object.deanonymise::<NativeTypes>(), Some(&NativeTypes::I32(-8)));
}

#[test]
fn value_is_absent_under_another_type() {
    let object = AnyObject::anonymise(42u8);
    assert_eq!(object.deanonymise::<i8>(), None);
    assert_eq!(object.deanonymise::<u16>(), None);
    assert_eq!(object.deanonymise::<usize>(), None);
    assert_eq!(object.deanonymise::<bool>(), None);
    assert_eq!(object.deanonymise::<NativeTypes>(), None);
    let object = AnyObject::anonymise(NativeTypes::U8(42));
    assert_eq!(object.deanonymise::<u8>(), None);
}

#[test]
fn every_storable_type_round_trips() {
    assert_eq!(AnyObject::anonymise(i8::MIN).deanonymise::<i8>(), Some(&i8::MIN));
    assert_eq!(AnyObject::anonymise(u16::MAX).deanonymise::<u16>(), Some(&u16::MAX));
    assert_eq!(AnyObject::anonymise(i16::MIN).deanonymise::<i16>(), Some(&i16::MIN));
    assert_eq!(AnyObject::anonymise(u32::MAX).deanonymise::<u32>(), Some(&u32::MAX));
    assert_eq!(AnyObject::anonymise(i32::MIN).deanonymise::<i32>(), Some(&i32::MIN));
    assert_eq!(AnyObject::anonymise(u64::MAX).deanonymise::<u64>(), Some(&u64::MAX));
}

#[test]
fn containers_compare_by_type_and_value() {
    assert_eq!(AnyObject::anonymise(1u8), AnyObject::anonymise(1u8));
    assert_ne!(AnyObject::anonymise(1u8), AnyObject::anonymise(2u8));
    assert_ne!(AnyObject::anonymise(1u8), AnyObject::anonymise(1u16));
    let object = AnyObject::anonymise(5u32);
    let copy = object.clone();
    assert_eq!(copy.deanonymise::<u32>(), Some(&5u32));
}

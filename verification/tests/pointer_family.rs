use cark_ref_counted::CloneSmartPointer;
use cark_ref_counted::RcHandle;
use cark_ref_counted::RcMark;
use cark_ref_counted::RefCounted;
use cark_ref_counted::SmartPointer;
use cark_ref_counted::SmartPointerFamily;
use cark_ref_counted::Store;
use cark_ref_counted::WeakPointer;
use cark_ref_counted::WeakRcHandle;

fn try_unwrap_case<RC: RefCounted<i32>>() {
    let mut store: Store<i32> = Store::new();
    let x = RC::new(&mut store, 3);
    match RC::try_unwrap(x, &mut store) {
        Ok(v) => assert_eq!(v, 3),
        Err(_) => panic!("expected the payload by value"),
    }
    let x = RC::new(&mut store, 4);
    let _y = RC::clone(&x, &mut store);
    match RC::try_unwrap(x, &mut store) {
        Ok(_) => panic!("expected the original handle back"),
        Err(h) => assert_eq!(*RC::get(&h, &store), 4),
    }
}

#[test]
fn test_try_unwrap() {
    try_unwrap_case::<RcHandle<i32>>();
}

struct Gadget<M>
where
    M: SmartPointerFamily<Gadget<M>>,
    M::Pointer: RefCounted<Gadget<M>>,
{
    me: <M::Pointer as RefCounted<Gadget<M>>>::WeakPointer,
}

fn gadget_new<M>(store: &mut Store<Gadget<M>>) -> M::Pointer
where
    M: SmartPointerFamily<Gadget<M>>,
    M::Pointer: RefCounted<Gadget<M>>,
{
    M::Pointer::new_cyclic(store, |me| Gadget { me })
}

#[test]
fn test_new_cyclic() {
    let mut store: Store<Gadget<RcMark>> = Store::new();
    let g = gadget_new::<RcMark>(&mut store);
    let raw_me = RcHandle::get(&g, &store).me.as_ptr();
    let me_weak: WeakRcHandle<Gadget<RcMark>> = WeakRcHandle::from_raw(&store, raw_me);
    let me_strong = me_weak.upgrade(&mut store).unwrap();
    assert!(RcHandle::as_ptr(&g) == RcHandle::as_ptr(&me_strong));
}

fn get_mut_case<RC: RefCounted<i32>>() {
    let mut store: Store<i32> = Store::new();
    let mut x = RC::new(&mut store, 3);
    *RC::get_mut(&mut x, &mut store).unwrap() = 4;
    assert_eq!(*RC::get(&x, &store), 4);
    let _y = RC::clone(&x, &mut store);
    assert!(RC::get_mut(&mut x, &mut store).is_none());
}

#[test]
fn test_get_mut() {
    get_mut_case::<RcHandle<i32>>();
}

fn into_raw_case<RC: RefCounted<String>>() {
    let mut store: Store<String> = Store::new();
    let x = RC::new(&mut store, "hello".to_owned());
    let x_ptr = RC::into_raw(x);
    assert_eq!(store.read(x_ptr), "hello");
}

#[test]
fn test_into_raw() {
    into_raw_case::<RcHandle<String>>();
}

fn increment_strong_count_case<RC: RefCounted<i32>>() {
    let mut store: Store<i32> = Store::new();
    let five = RC::new(&mut store, 5);
    let ptr = RC::into_raw(five);
    RC::increment_strong_count(&mut store, ptr);
    let five = RC::from_raw(&store, ptr);
    assert_eq!(2, RC::strong_count(&five, &store));
}

#[test]
fn test_increment_strong_count() {
    increment_strong_count_case::<RcHandle<i32>>();
}

fn decrement_strong_count_case<RC: RefCounted<i32>>() {
    let mut store: Store<i32> = Store::new();
    let five = RC::new(&mut store, 5);
    let ptr = RC::into_raw(five);
    RC::increment_strong_count(&mut store, ptr);
    let five = RC::from_raw(&store, ptr);
    assert_eq!(2, RC::strong_count(&five, &store));
    RC::decrement_strong_count(&mut store, ptr);
    assert_eq!(1, RC::strong_count(&five, &store));
}

#[test]
fn test_decrement_strong_count() {
    decrement_strong_count_case::<RcHandle<i32>>();
}

fn as_ptr_case<RC: RefCounted<String>>() {
    let mut store: Store<String> = Store::new();
    let x = RC::new(&mut store, "hello".to_owned());
    let y = RC::clone(&x, &mut store);
    let x_ptr = RC::as_ptr(&x);
    assert_eq!(x_ptr, RC::as_ptr(&y));
    assert_eq!(store.read(x_ptr), "hello");
}

#[test]
fn test_as_ptr() {
    as_ptr_case::<RcHandle<String>>();
}

fn downgrade_case<RC: RefCounted<i32>>() {
    let mut store: Store<i32> = Store::new();
    let five = RC::new(&mut store, 5);
    let _weak_five = RC::downgrade(&five, &mut store);
    assert_eq!(1, RC::weak_count(&five, &store));
}

#[test]
fn test_downgrade() {
    downgrade_case::<RcHandle<i32>>();
}

fn weak_upgrade_case<RC: RefCounted<i32>>() {
    let mut store: Store<i32> = Store::new();
    let five = RC::new(&mut store, 5);
    let weak_five = RC::downgrade(&five, &mut store);
    let strong_five = weak_five.upgrade(&mut store);
    assert!(strong_five.is_some());
    RC::release(strong_five.unwrap(), &mut store);
    RC::release(five, &mut store);
    assert!(weak_five.upgrade(&mut store).is_none());
}

#[test]
fn test_weak_upgrade() {
    weak_upgrade_case::<RcHandle<i32>>();
}

fn weak_ptr_eq_case<RC: RefCounted<i32>>() {
    let mut store: Store<i32> = Store::new();
    let first_rc = RC::new(&mut store, 5);
    let first = RC::downgrade(&first_rc, &mut store);
    let second = RC::downgrade(&first_rc, &mut store);
    assert!(first.ptr_eq(&second));
    let third_rc = RC::new(&mut store, 5);
    let third = RC::downgrade(&third_rc, &mut store);
    assert!(!first.ptr_eq(&third));
}

#[test]
fn test_weak_ptr_eq() {
    weak_ptr_eq_case::<RcHandle<i32>>();
}

fn weak_as_ptr_case<RC: RefCounted<String>>() {
    let mut store: Store<String> = Store::new();
    let strong = RC::new(&mut store, "hello".to_owned());
    let weak = RC::downgrade(&strong, &mut store);
    assert!(RC::as_ptr(&strong) == weak.as_ptr());
    assert_eq!("hello", store.read(weak.as_ptr()));
    RC::release(strong, &mut store);
}

#[test]
fn test_weak_as_ptr() {
    weak_as_ptr_case::<RcHandle<String>>();
}

fn weak_from_raw_case<RC: RefCounted<String>>() {
    let mut store: Store<String> = Store::new();
    let strong = RC::new(&mut store, "hello".to_owned());
    let raw1 = RC::WeakPointer::into_raw(RC::downgrade(&strong, &mut store));
    let raw2 = RC::WeakPointer::into_raw(RC::downgrade(&strong, &mut store));
    assert_eq!(2, RC::weak_count(&strong, &store));
    let w1 = RC::WeakPointer::from_raw(&store, raw1);
    let up1 = w1.upgrade(&mut store).unwrap();
    assert_eq!("hello", RC::get(&up1, &store));
    RC::WeakPointer::release(w1, &mut store);
    assert_eq!(1, RC::weak_count(&strong, &store));
    RC::release(up1, &mut store);
    RC::release(strong, &mut store);
    let w2 = RC::WeakPointer::from_raw(&store, raw2);
    assert!(w2.upgrade(&mut store).is_none());
}

#[test]
fn test_weak_from_raw() {
    weak_from_raw_case::<RcHandle<String>>();
}

fn make_mut_family_case<Mark>()
where
    Mark: SmartPointerFamily<i32>,
    Mark::Pointer: CloneSmartPointer<i32>,
{
    let mut store: Store<i32> = Store::new();
    let mut data = Mark::new(&mut store, 5i32);
    *Mark::Pointer::make_mut(&mut data, &mut store) += 1;
    let mut other_data = Mark::Pointer::clone(&data, &mut store);
    *Mark::Pointer::make_mut(&mut data, &mut store) += 1;
    *Mark::Pointer::make_mut(&mut data, &mut store) += 1;
    *Mark::Pointer::make_mut(&mut other_data, &mut store) *= 2;
    assert_eq!(*Mark::Pointer::get(&data, &store), 8);
    assert_eq!(*Mark::Pointer::get(&other_data, &store), 12);
}

fn make_mut_pointer_case<RC: CloneSmartPointer<i32>>() {
    let mut store: Store<i32> = Store::new();
    let mut data = RC::new(&mut store, 5);
    *RC::make_mut(&mut data, &mut store) += 1;
    let mut other_data = RC::clone(&data, &mut store);
    *RC::make_mut(&mut data, &mut store) += 1;
    *RC::make_mut(&mut data, &mut store) += 1;
    *RC::make_mut(&mut other_data, &mut store) *= 2;
    assert_eq!(*RC::get(&data, &store), 8);
    assert_eq!(*RC::get(&other_data, &store), 12);
}

#[test]
fn test_make_mut() {
    make_mut_family_case::<RcMark>();
    make_mut_pointer_case::<RcHandle<i32>>();
}

fn wrap_in<R>(store: &mut Store<i32>, value: i32) -> R::Pointer
where
    R: SmartPointerFamily<i32>,
{
    R::new(store, value)
}

#[test]
fn test_primitive() {
    let mut store: Store<i32> = Store::new();
    let _a = wrap_in::<RcMark>(&mut store, 1);
    let _a: RcHandle<i32> = wrap_in::<RcMark>(&mut store, 1);
}

struct Foo {
    name: String,
}

impl Foo {
    fn name(&self) -> &str {
        &self.name
    }
}

fn wrap_foo<R: RefCounted<Foo>>(store: &mut Store<Foo>, value: Foo) -> R {
    R::new(store, value)
}

#[test]
fn test_struct() {
    let mut store: Store<Foo> = Store::new();
    let a = wrap_foo::<RcHandle<Foo>>(&mut store, Foo { name: "Bar".to_owned() });
    assert_eq!(RcHandle::get(&a, &store).name(), "Bar");
}

struct FooWrap<R: RefCounted<String>> {
    name: R,
}

impl<R: RefCounted<String>> FooWrap<R> {
    fn name<'a>(&self, store: &'a Store<String>) -> &'a str {
        R::get(&self.name, store).as_str()
    }

    fn new(store: &mut Store<String>, name: &str) -> Self {
        Self { name: R::new(store, name.to_owned()) }
    }
}

#[test]
fn test_wrapping() {
    let mut store: Store<String> = Store::new();
    let foo = FooWrap::<RcHandle<String>>::new(&mut store, "John Doe");
    assert_eq!(foo.name(&store), "John Doe");
}

#[test]
fn test_closure() {
    let mut store = Store::new();
    let a = RcMark::new(&mut store, |x: i32| x + 1);
    let f = RcHandle::get(&a, &store);
    assert_eq!(f(1), 2);
    let mut other_store = Store::new();
    let _b = RcMark::new(&mut other_store, |x: i32| x + 2);
}

use lib::drm;
use lib::error::{Error, ENOMEM, EINVAL};
use lib::ttm::{
    BufferObject, BufferObjectForDriver, BufferObjectType, Device, DriverBufferObject, DriverTTM,
    DriverTt, InitRef, PfnRange, Place, PlaceFlag, PlaceFlags, PlaceType, StageAlloc, TtmBoRef,
    TtmBoInitArgs, TtmBufferObject, TtmPlacement, TtmTt, WithTTMData,
};
use lib::ttm::bo::GemObject;

// The bare minimum of a TTM driver.

struct KunitData {}

struct KunitDriver;

impl drm::Driver for KunitDriver {
    type Data = WithTTMData<KunitDriver>;
}

impl DriverTTM for KunitDriver {
    type DataTTM = KunitData;
    type BufferObject = KunitObject;
    type Tt = KunitTt;
}

struct KunitObject {}

impl DriverBufferObject for KunitObject {
    type Driver = KunitDriver;
    type Args = ();

    fn new(_dev: &drm::Device<KunitDriver>, size: usize, _args: ()) -> Result<Self, Error> {
        println!("Creating gem object of size {}", size);
        Ok(KunitObject {})
    }
}

struct KunitTt {}

impl DriverTt for KunitTt {
    type Driver = KunitDriver;

    fn new<'a>(
        bo: InitRef<'a, BufferObjectForDriver<KunitDriver>, StageAlloc>,
    ) -> Result<Self, Error> {
        println!("Creating TTM tt");
        // A copy of the reference refers to the same object.
        let copy = bo;
        assert!(std::ptr::eq(bo.as_ptr(), copy.clone().as_ptr()));
        assert!(bo.as_ptr().as_raw().has_dev);
        Ok(KunitTt {})
    }
}

fn create_drm_dev() -> Result<drm::Device<KunitDriver>, Error> {
    let drm = drm::Device::<KunitDriver>::new(WithTTMData::new(Ok(KunitData {})))?;
    // The C side's `ttm_device_init` reports success.
    let drm = drm.init_ttm(Device::new(), 0)?;
    Ok(drm)
}

#[test]
fn create_ttm_device() -> Result<(), Error> {
    let drm = create_drm_dev()?;

    // Create GEM+TTM BO.
    println!("Creating GEM+TTM BO");
    let _bo = BufferObject::<KunitObject>::new(
        &drm,
        4096,
        (),
        &[Place::new(PfnRange::all(), PlaceType::system(), PlaceFlags::empty())],
    )?
    .init_validate(0)?;

    Ok(())
}

struct DrmPinInitFailData {
    field0: i32,
    field1: i32,
    field2: i32,
}

impl DrmPinInitFailData {
    #[allow(dead_code)]
    const NOT_INITIALIZED: i32 = 0;
    const INITIALIZED: i32 = 1;
}

impl Drop for DrmPinInitFailData {
    fn drop(&mut self) {
        println!("We should not get here if pin init fails");
        assert_eq!(self.field0, DrmPinInitFailData::INITIALIZED);
        assert_eq!(self.field1, DrmPinInitFailData::INITIALIZED);
        assert_eq!(self.field2, DrmPinInitFailData::INITIALIZED);
    }
}

struct DrmPinInitFailDriver;

impl drm::Driver for DrmPinInitFailDriver {
    type Data = DrmPinInitFailData;
}

#[allow(unreachable_code)]
fn drm_pin_init_fail_data_init() -> Result<DrmPinInitFailData, Error> {
    let field0 = DrmPinInitFailData::INITIALIZED;
    let field1 = Err::<i32, Error>(Error::einval())?;
    let field2 = DrmPinInitFailData::INITIALIZED;
    Ok(DrmPinInitFailData { field0, field1, field2 })
}

#[test]
fn device_new_drops_data_after_drm_pin_init_fail() -> Result<(), Error> {
    let ret = drm::Device::<DrmPinInitFailDriver>::new(drm_pin_init_fail_data_init());

    assert!(ret.is_err());

    Ok(())
}

#[test]
fn drm_device_keeps_data_of_successful_init() {
    let drm = drm::Device::<DrmPinInitFailDriver>::new(Ok(DrmPinInitFailData {
        field0: DrmPinInitFailData::INITIALIZED,
        field1: DrmPinInitFailData::INITIALIZED,
        field2: DrmPinInitFailData::INITIALIZED,
    }))
    .unwrap();
    assert_eq!(drm.data().field1, DrmPinInitFailData::INITIALIZED);
}

#[test]
fn ttm_device_is_set_only_once() {
    let mut data = WithTTMData::<KunitDriver>::new(Ok(KunitData {})).ok().unwrap();
    assert!(data.populate_ttm(Device::<KunitDriver>::new().init(0).ok().unwrap()));
    assert!(!data.populate_ttm(Device::<KunitDriver>::new()));
    let _ = data.ttm_device();
}

#[test]
fn ttm_device_init_failure_is_reported() {
    let r = Device::<KunitDriver>::new().init(ENOMEM);
    assert_eq!(r.err().unwrap().to_errno(), ENOMEM);
    // A status that is no error number turns into EINVAL.
    let r = Device::<KunitDriver>::new().init(-5000);
    assert_eq!(r.err().unwrap().to_errno(), EINVAL);
}

#[test]
fn buffer_object_records_size_type_and_placement() {
    let drm = create_drm_dev().ok().unwrap();
    let places = [
        Place::new(PfnRange::new(16..32).ok().unwrap(), PlaceType::vram(), PlaceFlags::from_flag(PlaceFlag::Contiguous)),
        Place::new(PfnRange::from_start(8), PlaceType::tt(), PlaceFlags::empty().with(PlaceFlag::TopDown)),
    ];
    let bo = BufferObject::<KunitObject>::new(&drm, 8192, (), &places).ok().unwrap();
    assert_eq!(bo.as_raw().size, 8192);
    assert!(bo.as_raw().has_dev);
    assert!(bo.as_raw().ttm_funcs);
    assert!(std::ptr::eq(bo.drm(), &drm));
    assert!(std::ptr::eq(bo.ttm_device(), drm.data().ttm_device()));
    assert_eq!(
        bo.init_args(),
        TtmBoInitArgs { bo_type: 0, alignment: 0, interruptible: false }
    );
    let placement = bo.placement();
    assert_eq!(placement.num_placement, 2);
    assert_eq!(placement.placement[0].fpfn, 16);
    assert_eq!(placement.placement[0].lpfn, 32);
    assert_eq!(placement.placement[0].mem_type, 2);
    assert_eq!(placement.placement[0].flags, 1);
    assert_eq!(placement.placement[1].fpfn, 8);
    assert_eq!(placement.placement[1].lpfn, 0);
    assert_eq!(placement.placement[1].mem_type, 1);
    assert_eq!(placement.placement[1].flags, 2);
}

#[test]
fn buffer_object_validation_failure_is_reported() {
    let drm = create_drm_dev().ok().unwrap();
    let bo = BufferObject::<KunitObject>::new(&drm, 4096, (), &[]).ok().unwrap();
    let r = bo.init_validate(ENOMEM);
    assert_eq!(r.err().unwrap().to_errno(), ENOMEM);
}

struct FailingObject {}

struct FailingDriver;

impl drm::Driver for FailingDriver {
    type Data = WithTTMData<FailingDriver>;
}

impl DriverTTM for FailingDriver {
    type DataTTM = ();
    type BufferObject = FailingObject;
    type Tt = FailingTt;
}

impl DriverBufferObject for FailingObject {
    type Driver = FailingDriver;
    type Args = i32;

    fn new(_dev: &drm::Device<FailingDriver>, _size: usize, errno: i32) -> Result<Self, Error> {
        if errno < 0 {
            Err(Error::from_errno(errno))
        } else {
            Ok(FailingObject {})
        }
    }
}

struct FailingTt {}

impl DriverTt for FailingTt {
    type Driver = FailingDriver;

    fn new<'a>(
        _bo: InitRef<'a, BufferObjectForDriver<FailingDriver>, StageAlloc>,
    ) -> Result<Self, Error> {
        Err(Error::from_errno(ENOMEM))
    }
}

#[test]
fn buffer_object_driver_failure_is_returned() {
    let drm = drm::Device::<FailingDriver>::new(WithTTMData::new(Ok(()))).ok().unwrap();
    let drm = drm.init_ttm(Device::new(), 0).ok().unwrap();
    let r = BufferObject::<FailingObject>::new(&drm, 4096, -12, &[]);
    assert_eq!(r.err().unwrap().to_errno(), ENOMEM);
}

#[test]
fn tt_create_callback_skips_transfer_objects() {
    let ghost = TtmBufferObject { base: GemObject { size: 4096, has_dev: false, ttm_funcs: true } };
    let r = Device::<KunitDriver>::tt_create_callback(TtmBoRef::Transfer(&ghost));
    assert!(r.is_none());
}

#[test]
fn tt_create_callback_creates_tt_for_driver_objects() {
    let drm = create_drm_dev().ok().unwrap();
    let bo = BufferObject::<KunitObject>::new(&drm, 4096, (), &[]).ok().unwrap();
    let tt = Device::<KunitDriver>::tt_create_callback(TtmBoRef::Driver(&bo)).unwrap();
    assert_eq!(*tt.as_raw(), TtmTt { page_flags: 0, caching: 0, extra_pages: 0 });
    assert!(tt.init(0).is_ok());
}

#[test]
fn tt_create_callback_gives_none_when_driver_fails() {
    let drm = drm::Device::<FailingDriver>::new(WithTTMData::new(Ok(()))).ok().unwrap();
    let drm = drm.init_ttm(Device::new(), 0).ok().unwrap();
    let bo = BufferObject::<FailingObject>::new(&drm, 4096, 0, &[]).ok().unwrap();
    let r = Device::<FailingDriver>::tt_create_callback(TtmBoRef::Driver(&bo));
    assert!(r.is_none());
}

#[test]
fn pfn_range_rejects_empty_ranges() {
    assert_eq!(PfnRange::new(5..5).err().unwrap().to_errno(), EINVAL);
    assert_eq!(PfnRange::new(6..5).err().unwrap().to_errno(), EINVAL);
    assert!(PfnRange::new(5..6).is_ok());
}

#[test]
fn place_records_range_type_and_flags() {
    let flags = PlaceFlags::from_flag(PlaceFlag::Desired).union(PlaceFlags::from_flag(PlaceFlag::Fallback));
    assert!(flags.contains(PlaceFlag::Desired));
    assert!(!flags.contains(PlaceFlag::Temporary));
    let p = Place::new(PfnRange::new(1..100).ok().unwrap(), PlaceType::driver_place_type::<5>(), flags);
    let raw = p.as_raw();
    assert_eq!((raw.fpfn, raw.lpfn, raw.mem_type, raw.flags), (1, 100, 5, 24));
}

#[test]
fn placement_counts_places() {
    let places = [Place::new(PfnRange::all(), PlaceType::system(), PlaceFlags::empty()); 3];
    let p = TtmPlacement::new(&places).ok().unwrap();
    assert_eq!(p.num_placement, 3);
    assert_eq!(p.placement.len(), 3);
}

#[test]
fn buffer_object_type_values() {
    assert_eq!(u32::from(BufferObjectType::Device), 0);
    assert_eq!(u32::from(BufferObjectType::Kernel), 1);
    assert_eq!(u32::from(BufferObjectType::ScatterGather), 2);
}

#[test]
fn to_result_maps_status() {
    assert!(lib::error::to_result(0).is_ok());
    assert!(lib::error::to_result(7).is_ok());
    assert_eq!(lib::error::to_result(-22).err().unwrap().to_errno(), EINVAL);
    assert_eq!(Error::from_errno(0).to_errno(), EINVAL);
    assert_eq!(Error::from_errno(-4095).to_errno(), -4095);
    assert_eq!(Error::from_errno(-4096).to_errno(), EINVAL);
}

#[test]
fn init_ttm_sets_the_ttm_device_or_fails() {
    let drm = drm::Device::<KunitDriver>::new(WithTTMData::new(Ok(KunitData {}))).ok().unwrap();
    assert!(!drm.data().has_ttm_device());
    let drm = drm.init_ttm(Device::new(), 0).ok().unwrap();
    assert!(drm.data().has_ttm_device());

    let fresh = drm::Device::<KunitDriver>::new(WithTTMData::new(Ok(KunitData {}))).ok().unwrap();
    assert_eq!(fresh.init_ttm(Device::new(), ENOMEM).err().unwrap().to_errno(), ENOMEM);
}

#[test]
fn driver_error_comes_before_placement_error() {
    // The driver's part fails and the placement list is fine: the driver's
    // error is returned.
    let drm = drm::Device::<FailingDriver>::new(WithTTMData::new(Ok(()))).ok().unwrap();
    let drm = drm.init_ttm(Device::new(), 0).ok().unwrap();
    let r = BufferObject::<FailingObject>::new(&drm, 4096, -5, &[]);
    assert_eq!(r.err().unwrap().to_errno(), -5);
}

#[test]
fn ttm_device_gets_driver_callbacks_and_no_flags() {
    let dev = Device::<KunitDriver>::new();
    let funcs = dev.funcs();
    assert!(funcs.ttm_tt_create && funcs.ttm_tt_destroy && funcs.move_);
    assert!(!funcs.ttm_tt_populate && !funcs.evict_flags && !funcs.io_mem_reserve);
    assert_eq!(dev.init_flags(), 0);
    let drm = drm::Device::<KunitDriver>::new(WithTTMData::new(Ok(KunitData {}))).ok().unwrap();
    let drm = drm.init_ttm(dev, 0).ok().unwrap();
    assert_eq!(drm.data().ttm_device().funcs(), funcs);
    assert_eq!(drm.data().ttm_device().init_flags(), 0);
}

use hospital_core::hospital::CreateHospital;
use hospital_core::hospital::HospitalService;
use hospital_core::hospital::MemHospitalRepository;

fn body(name: &str, address: &str) -> CreateHospital {
    CreateHospital { name: name.to_string(), address: address.to_string() }
}

#[test]
fn create_then_read_back() {
    let mut service = HospitalService::new(MemHospitalRepository::starting_at(1));
    let created = service.create(body("General", "Main St 1")).unwrap();
    assert_eq!(created.id_hospital, 1);
    assert_eq!(created.name, "General");
    assert_eq!(created.address, "Main St 1");
    let read = service.get_by_id(1).unwrap().unwrap();
    assert_eq!(read.name, "General");
    assert_eq!(read.address, "Main St 1");
}

#[test]
fn ids_are_handed_out_in_order() {
    let mut service = HospitalService::new(MemHospitalRepository::starting_at(7));
    let a = service.create(body("A", "a")).unwrap();
    let b = service.create(body("B", "b")).unwrap();
    assert_eq!(a.id_hospital, 7);
    assert_eq!(b.id_hospital, 8);
    let all = service.get_all().unwrap();
    assert_eq!(all.len(), 2);
    assert_eq!(all[0].name, "A");
    assert_eq!(all[1].name, "B");
}

#[test]
fn update_rewrites_the_row() {
    let mut service = HospitalService::new(MemHospitalRepository::starting_at(1));
    service.create(body("Old", "Old St")).unwrap();
    let updated = service.update(1, body("New", "New St")).unwrap().unwrap();
    assert_eq!(updated.id_hospital, 1);
    assert_eq!(updated.name, "New");
    let read = service.get_by_id(1).unwrap().unwrap();
    assert_eq!(read.name, "New");
    assert_eq!(read.address, "New St");
}

#[test]
fn update_of_a_missing_row_returns_nothing() {
    let mut service = HospitalService::new(MemHospitalRepository::starting_at(1));
    assert!(service.update(99, body("X", "x")).unwrap().is_none());
}

#[test]
fn exhausted_id_counter_is_a_store_failure() {
    let mut service = HospitalService::new(MemHospitalRepository::starting_at(i32::MAX));
    assert!(service.create(body("Last", "End St")).is_err());
    assert_eq!(service.get_all().unwrap().len(), 0);
}

#[test]
fn delete_removes_and_returns_the_row() {
    let mut service = HospitalService::new(MemHospitalRepository::starting_at(1));
    service.create(body("General", "Main St 1")).unwrap();
    let removed = service.delete(1).unwrap().unwrap();
    assert_eq!(removed.id_hospital, 1);
    assert!(service.get_by_id(1).unwrap().is_none());
    assert!(service.delete(1).unwrap().is_none());
    assert_eq!(service.get_all().unwrap().len(), 0);
}

use clinic::error::{assert_exists, CoreError, Entity};
use clinic::store::{
    parse_status_filter, AppointStatus, APPOINT_STATUS_ALL, APPOINT_STATUS_CANCELED,
    APPOINT_STATUS_FINISHED, APPOINT_STATUS_UNFINISHED,
};

#[test]
fn status_labels_round_trip() {
    for s in [AppointStatus::Unfinished, AppointStatus::Finished, AppointStatus::Canceled] {
        assert_eq!(parse_status_filter(s.label()), Some(Some(s)));
    }
    assert_eq!(AppointStatus::Unfinished.label(), "未完成");
    assert_eq!(AppointStatus::Finished.label(), "已完成");
    assert_eq!(AppointStatus::Canceled.label(), "已取消");
    assert_eq!(parse_status_filter(APPOINT_STATUS_ALL), Some(None));
    assert_eq!(parse_status_filter("pending"), None);
    assert_ne!(APPOINT_STATUS_CANCELED, APPOINT_STATUS_FINISHED);
}

#[test]
fn search_status_defaults_to_unfinished() {
    assert_eq!(clinic::user::requests::search_appoint_request_status_default(), APPOINT_STATUS_UNFINISHED);
    assert_eq!(clinic::doctor::requests::search_appoint_request_status_default(), APPOINT_STATUS_UNFINISHED);
}

#[test]
fn failed_responses_carry_the_message() {
    let r = clinic::user::responses::SearchAppointResponse::err("no");
    assert!(!r.success);
    assert_eq!(r.err, "no");
    assert!(r.appointments.is_empty());
    let l = clinic::admin::responses::LoginResponse::err(CoreError::WrongPassword.message());
    assert_eq!(l.err, "密码错误");
    assert_eq!(l.login_token, "");
    let v = clinic::doctor::responses::ViewInfoResponse::err("x");
    assert!(!v.success);
    assert_eq!(v.name, "");
}

#[test]
fn only_store_failures_are_transient() {
    assert!(CoreError::StoreUnavailable.is_transient());
    assert!(!CoreError::SlotFull.is_transient());
    assert!(!CoreError::NotFound(Entity::Slot).is_transient());
    assert_eq!(CoreError::SlotFull.message(), "时间段已满");
    assert_eq!(CoreError::NotFound(Entity::Slot).message(), "时间段不存在");
}

#[test]
fn existence_helper() {
    assert_eq!(assert_exists(true, Entity::Doctor), Ok(()));
    assert_eq!(assert_exists(false, Entity::Doctor), Err(CoreError::NotFound(Entity::Doctor)));
    assert_eq!(CoreError::NotFound(Entity::Doctor).message(), "医生不存在");
}

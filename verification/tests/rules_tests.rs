use meli_backend::access::{
    authorize, check_consumer_access, set_merchant_id, try_current_merchant_id, administrator_permissions_of_tenancy_account,
    default_permissions_of_merchant_barber, BARBER_BASE, MERCHANT_ADMINISTRATOR, STATISTIC,
};
use meli_backend::account_rules::{
    check_barber_login, check_registration, classify_login_account, new_password_hash, owner_contacts,
    password_change_hashes,
    owner_description, verify_password, RegisterMerchantRequest, ACCOUNT_FORMAT, LOGIN_DISABLED,
    MERCHANT_LOGIN_FAILED, MERCHANT_NAME_TAKEN, NOT_REGISTERED, PASSWORD_FAILED,
};
use meli_backend::api::{ApiError, Response, OPERATION_SUCCESS};
use meli_backend::auth::{AuthSession, Identity, Permission};
use meli_backend::barber_rules::{
    check_barber_removal, check_barber_update, check_new_barber, check_old_password, check_update_info,
    new_login_accounts, BarberEditRequest, UpdateInfoRequest, BARBER_NOT_FOUND, CELLPHONE_FORMAT,
    CELLPHONE_TAKEN, CELLPHONE_USED_BY_OTHER, CONTACT_REQUIRED, EMAIL_FORMAT, EMAIL_TAKEN,
    EMAIL_USED_BY_OTHER, EMAIL_USED_CONTACT_ADMIN, OLD_PASSWORD_WRONG, OWNER_CANNOT_BE_DELETED, PASSWORD_PAIR,
};
use meli_backend::config::SessionTimeouts;
use meli_backend::contact::{is_valid_cellphone, is_valid_email, LoginInfoType};
use meli_backend::listing::{
    appointment_customer, consumer_type_for, consumer_type_label, name_or_dash, order_member_columns,
    payment_type_label, total_minutes, MemberSummary, PaginatedListRequest, PaginatedListResponse, Search,
};
use meli_backend::member_rules::{
    check_member_exists, check_member_update, check_new_member, check_new_service_type, check_recharge,
    check_recharge_amount,
    check_service_type_exists, CELLPHONE_IN_USE, MEMBER_EXISTS, MEMBER_NOT_FOUND, RECHARGE_NOT_POSITIVE,
    SERVICE_TYPE_EXISTS, SERVICE_TYPE_NOT_FOUND,
};
use meli_backend::permissions::{
    barber_permission_ids, barber_permissions_json, has_permission_id, identity_lookup_ids,
    owner_permission_ids, owner_permissions_json, select_permission_ids, stored_permission_ids,
    updated_permission_ids, updated_permissions_json,
};
use meli_backend::session::AxumSession;

const A: u128 = 0x11111111_1111_1111_1111_111111111111;
const B: u128 = 0x22222222_2222_2222_2222_222222222222;
const M: u128 = 0x33333333_3333_3333_3333_333333333333;

fn err(r: Result<impl Sized, ApiError>) -> (u16, String) {
    match r {
        Ok(_) => panic!("expected a refusal"),
        Err(e) => (e.status, e.message),
    }
}

fn identity(codes: &[&str]) -> Identity {
    let perms = codes
        .iter()
        .enumerate()
        .map(|(i, c)| Permission {
            permission_id: i as u128,
            permission_code: c.to_string(),
            permission_name: c.to_string(),
            description: String::new(),
            enabled: true,
            create_time: 0,
            update_time: 0,
            data: None,
        })
        .collect();
    Identity::new(A, Vec::new(), perms)
}

#[test]
fn require_permissions_outcomes() {
    let none = AuthSession { identity: None };
    assert_eq!(none.require_permissions(vec![BARBER_BASE]), Err("No login."));
    let some = AuthSession { identity: Some(identity(&[BARBER_BASE, STATISTIC])) };
    assert_eq!(some.require_permissions(vec![BARBER_BASE]), Ok(()));
    assert_eq!(some.require_permissions(vec![BARBER_BASE, STATISTIC]), Ok(()));
    assert_eq!(some.require_permissions(vec![]), Ok(()));
    assert_eq!(some.require_permissions(vec![MERCHANT_ADMINISTRATOR]), Err("No permissions."));
    assert_eq!(err(authorize(&some, MERCHANT_ADMINISTRATOR)), (401, "No permissions.".to_string()));
    assert!(authorize(&some, STATISTIC).is_ok());
    assert_eq!(err(authorize(&none, STATISTIC)), (401, "No login.".to_string()));
}

#[test]
fn identity_codes_follow_permissions() {
    let id = identity(&["x", "y"]);
    assert_eq!(id.permission_codes, vec!["x".to_string(), "y".to_string()]);
}

#[test]
fn merchant_id_read_after_write() {
    let mut s = AxumSession::new_anonymous(A, 0, SessionTimeouts::default_timeouts());
    assert_eq!(try_current_merchant_id(&s), None);
    set_merchant_id(&mut s, M);
    assert_eq!(try_current_merchant_id(&s), Some(M));
    assert_eq!(s.get_data("merchant_id"), "33333333-3333-3333-3333-333333333333");
    s.set_data("merchant_id".to_string(), "bad".to_string());
    assert_eq!(try_current_merchant_id(&s), None);
}

#[test]
fn policy_lists() {
    assert_eq!(
        administrator_permissions_of_tenancy_account(),
        vec!["Barber_Base", "Canlendar", "Member", "ServiceType", "Barber", "Statistic"]
    );
    assert_eq!(default_permissions_of_merchant_barber(), vec!["BARBER_BASE", "Canlendar", "Member"]);
}

#[test]
fn contact_formats() {
    assert!(is_valid_email("a@b.com"));
    assert!(!is_valid_email("not an email"));
    assert!(is_valid_cellphone("13812345678"));
    assert!(!is_valid_cellphone("12812345678"));
    assert!(!is_valid_cellphone("1381234567"));
    assert_eq!(classify_login_account("a@b.com"), Some(LoginInfoType::Email));
    assert_eq!(classify_login_account("13812345678"), Some(LoginInfoType::Cellphone));
    assert_eq!(classify_login_account("hello"), None);
    assert_eq!(LoginInfoType::Email.as_str(), "Email");
    assert_eq!(LoginInfoType::Cellphone.as_str(), "Cellphone");
    assert_eq!(LoginInfoType::Username.as_str(), "Username");
}

fn barber_req(email: Option<&str>, cellphone: Option<&str>) -> BarberEditRequest {
    BarberEditRequest {
        cellphone: cellphone.map(|s| s.to_string()),
        real_name: "Li".to_string(),
        email: email.map(|s| s.to_string()),
        permission_ids: vec![A],
    }
}

#[test]
fn new_barber_checks() {
    assert_eq!(err(check_new_barber(&barber_req(None, None), false, false)), (400, CONTACT_REQUIRED.to_string()));
    assert_eq!(err(check_new_barber(&barber_req(Some("bad"), None), false, false)), (400, EMAIL_FORMAT.to_string()));
    assert_eq!(err(check_new_barber(&barber_req(Some("a@b.com"), None), true, false)), (400, EMAIL_TAKEN.to_string()));
    assert_eq!(
        err(check_new_barber(&barber_req(Some("a@b.com"), Some("123")), false, false)),
        (400, CELLPHONE_FORMAT.to_string())
    );
    assert_eq!(
        err(check_new_barber(&barber_req(None, Some("13812345678")), false, true)),
        (400, CELLPHONE_TAKEN.to_string())
    );
    assert!(check_new_barber(&barber_req(Some("a@b.com"), Some("13812345678")), false, false).is_ok());
    let accounts = new_login_accounts(&Some("a@b.com".to_string()), &Some("13812345678".to_string()));
    assert_eq!(accounts.len(), 2);
    assert_eq!(accounts[0].account, "a@b.com");
    assert_eq!(accounts[0].kind, LoginInfoType::Email);
    assert_eq!(accounts[1].account, "13812345678");
    assert_eq!(accounts[1].kind, LoginInfoType::Cellphone);
    assert_eq!(new_login_accounts(&None, &None).len(), 0);
}

#[test]
fn barber_update_checks() {
    let r = barber_req(Some("a@b.com"), Some("13812345678"));
    assert_eq!(err(check_barber_update(&barber_req(None, None), Some(A), None, None)), (400, CONTACT_REQUIRED.to_string()));
    assert_eq!(err(check_barber_update(&r, None, None, None)), (404, BARBER_NOT_FOUND.to_string()));
    assert_eq!(err(check_barber_update(&r, Some(A), Some(B), None)), (400, EMAIL_USED_BY_OTHER.to_string()));
    assert_eq!(err(check_barber_update(&r, Some(A), Some(A), Some(B))), (400, CELLPHONE_USED_BY_OTHER.to_string()));
    let changes = check_barber_update(&r, Some(A), Some(A), None).ok().unwrap();
    assert!(!changes.insert_email);
    assert!(changes.insert_cellphone);
}

fn info_req(old: Option<&str>, new: Option<&str>, email: Option<&str>) -> UpdateInfoRequest {
    UpdateInfoRequest {
        real_name: "Li".to_string(),
        cellphone: None,
        email: email.map(|s| s.to_string()),
        new_password: new.map(|s| s.to_string()),
        old_password: old.map(|s| s.to_string()),
        merchant_name: "Shop".to_string(),
        merchant_address: None,
        merchant_remark: None,
    }
}

#[test]
fn update_info_checks() {
    assert_eq!(err(check_update_info(&info_req(Some("o"), None, None), A, None, None)), (400, PASSWORD_PAIR.to_string()));
    assert_eq!(
        err(check_update_info(&info_req(None, None, Some("a@b.com")), A, Some(B), None)),
        (400, EMAIL_USED_CONTACT_ADMIN.to_string())
    );
    let plan = check_update_info(&info_req(Some("o"), Some("n"), Some("a@b.com")), A, None, None).ok().unwrap();
    assert!(plan.change_password);
    assert!(plan.logins.insert_email);
    assert!(!plan.logins.insert_cellphone);
    assert_eq!(err(check_old_password(false)), (400, OLD_PASSWORD_WRONG.to_string()));
    assert!(check_old_password(true).is_ok());
}

#[test]
fn barber_removal_and_permissions() {
    let a_and_m = "[\"11111111-1111-1111-1111-111111111111\",\"33333333-3333-3333-3333-333333333333\"]";
    let only_a = "[\"11111111-1111-1111-1111-111111111111\"]";
    assert_eq!(err(check_barber_removal(None, M).unwrap()), (404, BARBER_NOT_FOUND.to_string()));
    assert_eq!(err(check_barber_removal(Some(a_and_m), M).unwrap()), (400, OWNER_CANNOT_BE_DELETED.to_string()));
    assert!(check_barber_removal(Some(only_a), M).unwrap().is_ok());
    assert!(check_barber_removal(Some("not json"), M).is_none());
    assert!(has_permission_id(&vec![A, B], B));
    assert!(!has_permission_id(&vec![A], B));
    assert_eq!(barber_permission_ids(&vec![A], B), vec![A, B]);
    assert_eq!(updated_permission_ids(&vec![M], M, &vec![A], B), None);
    assert_eq!(updated_permission_ids(&vec![A], M, &vec![A], B), Some(vec![A, B]));
    assert_eq!(owner_permission_ids(&vec![A], M, B), vec![A, M, B]);
}

#[test]
fn permission_json_round_trip() {
    let text = barber_permissions_json(&vec![A], B);
    assert_eq!(
        text,
        "[\"11111111-1111-1111-1111-111111111111\",\"22222222-2222-2222-2222-222222222222\"]"
    );
    assert_eq!(stored_permission_ids(&text), Some(vec![A, B]));
    assert_eq!(stored_permission_ids("[1]"), None);
    let owner = owner_permissions_json(&vec![A], M, B);
    assert_eq!(stored_permission_ids(&owner), Some(vec![A, M, B]));
    assert_eq!(updated_permissions_json(&owner, M, &vec![], B), Some(None));
    let updated = updated_permissions_json(&text, M, &vec![B], A).unwrap().unwrap();
    assert_eq!(stored_permission_ids(&updated), Some(vec![B, A]));
    assert_eq!(updated_permissions_json("{}", M, &vec![], B), None);
}

#[test]
fn identity_ids_from_stored_lists() {
    let permissions = "[\"11111111-1111-1111-1111-111111111111\",\"33333333-3333-3333-3333-333333333333:22222222-2222-2222-2222-222222222222\"]";
    let roles = "[\"22222222-2222-2222-2222-222222222222\"]";
    assert_eq!(identity_lookup_ids(permissions, roles, Some(M)), Some((vec![A, B], vec![B])));
    assert_eq!(identity_lookup_ids(permissions, "[]", None), Some((vec![A], vec![])));
    assert_eq!(identity_lookup_ids("[1]", roles, None), None);
    assert_eq!(identity_lookup_ids(permissions, "[\"x\"]", None), None);
    assert_eq!(identity_lookup_ids("[\"bad\"]", roles, None), None);
}

#[test]
fn select_permissions_by_merchant() {
    let entries = vec![
        "11111111-1111-1111-1111-111111111111".to_string(),
        "33333333-3333-3333-3333-333333333333:22222222-2222-2222-2222-222222222222".to_string(),
        "22222222-2222-2222-2222-222222222222:11111111-1111-1111-1111-111111111111".to_string(),
    ];
    assert_eq!(select_permission_ids(&entries, Some(M)), Some(vec![A, B]));
    assert_eq!(select_permission_ids(&entries, None), Some(vec![A]));
    assert_eq!(select_permission_ids(&vec!["bad".to_string()], None), None);
    let bad_scoped = vec!["33333333-3333-3333-3333-333333333333:bad".to_string()];
    assert_eq!(select_permission_ids(&bad_scoped, Some(M)), None);
    assert_eq!(select_permission_ids(&bad_scoped, None), Some(vec![]));
    let three = vec!["33333333-3333-3333-3333-333333333333:22222222-2222-2222-2222-222222222222:x".to_string()];
    assert_eq!(select_permission_ids(&three, Some(M)), Some(vec![B]));
}

#[test]
fn registration_checks() {
    let req = |acc: &str| RegisterMerchantRequest {
        merchant_name: "Shop".to_string(),
        login_account: acc.to_string(),
        account_real_name: "Li".to_string(),
        password: "pw".to_string(),
    };
    assert_eq!(err(check_registration(&req("hello"), false, false)), (400, ACCOUNT_FORMAT.to_string()));
    assert_eq!(err(check_registration(&req("a@b.com"), true, false)), (400, EMAIL_TAKEN.to_string()));
    assert_eq!(err(check_registration(&req("13812345678"), true, false)), (400, CELLPHONE_TAKEN.to_string()));
    assert_eq!(err(check_registration(&req("a@b.com"), false, true)), (400, MERCHANT_NAME_TAKEN.to_string()));
    assert_eq!(check_registration(&req("13812345678"), false, false).ok(), Some(LoginInfoType::Cellphone));
    assert_eq!(owner_contacts(LoginInfoType::Email, "a@b.com"), (Some("a@b.com".to_string()), None));
    assert_eq!(owner_contacts(LoginInfoType::Cellphone, "138"), (None, Some("138".to_string())));
    assert_eq!(owner_description("Shop"), "Administrator of merchant Shop");
}

#[test]
fn login_checks() {
    let hash = new_password_hash("secret", "somesaltvalue").unwrap();
    assert!(hash.starts_with("$argon2"));
    assert_ne!(hash, "secret");
    assert_eq!(new_password_hash("secret", "short"), None);
    let (old_hash, new_hash) = password_change_hashes("secret", "other", "somesaltvalue").unwrap();
    assert_eq!(old_hash, hash);
    assert_ne!(new_hash, hash);
    assert_eq!(password_change_hashes("secret", "other", "short"), None);
    assert_eq!(err(check_barber_login(None, None, "x", None)), (401, NOT_REGISTERED.to_string()));
    assert_eq!(err(check_barber_login(Some(A), None, "x", None)), (400, LOGIN_DISABLED.to_string()));
    assert_eq!(err(check_barber_login(Some(A), Some("garbage"), "x", Some(M))), (400, PASSWORD_FAILED.to_string()));
    assert_eq!(err(check_barber_login(Some(A), Some(&hash), "secret", None)), (400, MERCHANT_LOGIN_FAILED.to_string()));
    assert_eq!(check_barber_login(Some(A), Some(&hash), "secret", Some(M)).ok(), Some((A, M)));
    // A hash that reads but does not match still passes this check, as it always has.
    assert_eq!(check_barber_login(Some(A), Some(&hash), "wrong", Some(M)).ok(), Some((A, M)));
    assert!(verify_password(&hash, "secret").is_ok());
    assert_eq!(verify_password(&hash, "wrong"), Err(PASSWORD_FAILED.to_string()));
    assert!(verify_password("garbage", "secret").is_err());
}

#[test]
fn member_and_service_type_checks() {
    assert_eq!(err(check_new_member(true)), (400, MEMBER_EXISTS.to_string()));
    assert!(check_new_member(false).is_ok());
    assert_eq!(err(check_member_exists(false)), (400, MEMBER_NOT_FOUND.to_string()));
    assert!(check_member_exists(true).is_ok());
    assert_eq!(err(check_member_update(false, true)), (400, MEMBER_NOT_FOUND.to_string()));
    assert_eq!(err(check_member_update(true, true)), (400, CELLPHONE_IN_USE.to_string()));
    assert!(check_member_update(true, false).is_ok());
    assert_eq!(err(check_recharge(false, false)), (400, MEMBER_NOT_FOUND.to_string()));
    assert_eq!(err(check_recharge(true, false)), (400, RECHARGE_NOT_POSITIVE.to_string()));
    assert!(check_recharge(true, true).is_ok());
    assert_eq!(err(check_new_service_type(Some(true))), (500, SERVICE_TYPE_EXISTS.to_string()));
    assert!(check_new_service_type(None).is_ok());
    assert!(check_new_service_type(Some(false)).is_ok());
    assert_eq!(err(check_service_type_exists(false)), (404, SERVICE_TYPE_NOT_FOUND.to_string()));
}

#[test]
fn paging_and_search() {
    let p = PaginatedListRequest { page_index: 2, page_size: 10 };
    assert_eq!(p.offset(), Some(20));
    assert_eq!(p.limit(), 10);
    assert_eq!(PaginatedListRequest { page_index: i64::MAX, page_size: 2 }.offset(), None);
    let r = PaginatedListResponse::new(&p, 35, vec![1, 2]);
    assert_eq!((r.page_index, r.page_size, r.total_count, r.data), (2, 10, 35, vec![1, 2]));
    let s = Search { key: Some("ab".to_string()), barber_id: None, filter_gender: None };
    assert_eq!(s.key_pattern(), Some("%ab%".to_string()));
    assert_eq!(s.nonempty_key_pattern(), Some("%ab%".to_string()));
    let e = Search { key: Some(String::new()), barber_id: None, filter_gender: None };
    assert_eq!(e.key_pattern(), Some("%%".to_string()));
    assert_eq!(e.nonempty_key_pattern(), None);
}

#[test]
fn order_labels_and_columns() {
    assert_eq!(consumer_type_for(None), "walk-in");
    assert_eq!(consumer_type_for(Some(A)), "member");
    assert_eq!(consumer_type_label("member"), "会员");
    assert_eq!(consumer_type_label("walk-in"), "进店顾客");
    assert_eq!(payment_type_label("member"), "会员充值");
    assert_eq!(payment_type_label("cash"), "现金");
    assert_eq!(name_or_dash(&None), "-");
    assert_eq!(name_or_dash(&Some("Li".to_string())), "Li");
    let m = Some(MemberSummary { real_name: None, cellphone: "138".to_string() });
    assert_eq!(order_member_columns("member", &m), ("-".to_string(), "138".to_string()));
    assert_eq!(order_member_columns("member", &None), ("-".to_string(), "-".to_string()));
    assert_eq!(order_member_columns("walk-in", &m), (String::new(), String::new()));
    assert_eq!(appointment_customer("walk-in", &None), "walk-in");
    assert_eq!(appointment_customer("member", &m), "-");
}

#[test]
fn minutes_truncate_toward_zero() {
    assert_eq!(total_minutes(0, 150_000), 2);
    assert_eq!(total_minutes(150_000, 0), -2);
    assert_eq!(total_minutes(0, 59_999), 0);
    assert_eq!(total_minutes(0, -59_999), 0);
}

#[test]
fn response_envelopes() {
    let f: Response<i32> = Response::fail("bad".to_string());
    assert!(!f.succeeded);
    assert_eq!(f.message, "bad");
    assert!(f.data.is_none());
    let s = Response::succeed(5);
    assert!(s.succeeded);
    assert_eq!(s.message, OPERATION_SUCCESS);
    assert_eq!(s.data, Some(5));
    let e: Response<i32> = Response::succeed_with_empty();
    assert!(e.succeeded && e.data.is_none());
    assert_eq!(e.message, "operation success");
}

#[test]
fn stored_password_signs_in() {
    let hash = new_password_hash("secret", "somesaltvalue").unwrap();
    assert_eq!(check_barber_login(Some(A), Some(&hash), "secret", Some(M)).ok(), Some((A, M)));
    assert!(verify_password(&hash, "secret").is_ok());
    let (_, new_hash) = password_change_hashes("secret", "changed", "somesaltvalue").unwrap();
    assert_eq!(check_barber_login(Some(A), Some(&new_hash), "changed", Some(M)).ok(), Some((A, M)));
    assert!(verify_password(&new_hash, "changed").is_ok());
    assert_eq!(verify_password(&new_hash, "secret"), Err(PASSWORD_FAILED.to_string()));
}

#[test]
fn recharge_amounts() {
    assert!(check_recharge_amount(true, "12.50").is_ok());
    assert!(check_recharge_amount(true, "1e2").is_ok());
    assert_eq!(err(check_recharge_amount(true, "0")), (400, RECHARGE_NOT_POSITIVE.to_string()));
    assert_eq!(err(check_recharge_amount(true, "0.00")), (400, RECHARGE_NOT_POSITIVE.to_string()));
    assert_eq!(err(check_recharge_amount(true, "-1.5")), (400, RECHARGE_NOT_POSITIVE.to_string()));
    assert_eq!(err(check_recharge_amount(true, "abc")), (400, RECHARGE_NOT_POSITIVE.to_string()));
    assert_eq!(err(check_recharge_amount(false, "5")), (400, MEMBER_NOT_FOUND.to_string()));
}

#[test]
fn consumer_access_checks() {
    let none = AuthSession { identity: None };
    assert_eq!(err(check_consumer_access(&none, BARBER_BASE)), (401, "no login".to_string()));
    let with = AuthSession { identity: Some(identity(&[BARBER_BASE])) };
    assert!(check_consumer_access(&with, BARBER_BASE).is_ok());
    assert_eq!(err(check_consumer_access(&with, STATISTIC)), (500, "no permission".to_string()));
}

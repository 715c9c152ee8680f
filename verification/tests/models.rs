use demeter::common::id::Id;
use demeter::common::response::{ApiResponse, PageResponse};
use demeter::modules::auth::models::{LoginRequest, RegisterRequest};
use demeter::modules::business::project::models::{BatchDeleteProjectsParams, ReorderProjectsParams};
use demeter::modules::business::project::task::models::{
    AttributeType, BatchDeleteTaskAttributeConfigsParams, BatchDeleteTasksParams, TaskQueryParams,
    TaskType,
};
use demeter::modules::holiday::models::{BatchDeleteHolidaysParams, BatchUpdateHolidaysParams};
use demeter::modules::organization::department::models::{
    BatchDeleteDepartmentsParams, CreateDepartmentParams, DepartmentQueryParams,
    UpdateDepartmentParams,
};
use demeter::modules::organization::team::models::{
    BatchDeleteTeamsParams, CreateTeamParams, TeamQueryParams, UpdateTeamParams,
};
use demeter::modules::user::models::{
    BatchDeleteUsersParams, CreateUserParams, ResetPasswordResponse, ToggleUserStatusParams,
    UpdateProfileParams, UpdateUserParams, UserQueryParams,
};

#[test]
fn attribute_types_have_lower_case_names() {
    let all = [
        (AttributeType::Text, "text"),
        (AttributeType::Number, "number"),
        (AttributeType::Boolean, "boolean"),
        (AttributeType::Date, "date"),
        (AttributeType::DateTime, "datetime"),
        (AttributeType::Select, "select"),
    ];
    for (kind, name) in all {
        assert_eq!(kind.as_str(), name);
        assert_eq!(AttributeType::from_str(name), Some(kind));
        assert_eq!(AttributeType::from_str(kind.as_str()), Some(kind));
    }
}

#[test]
fn unknown_attribute_type_names_are_refused() {
    for name in ["", "Text", "TEXT", "text ", " text", "dateTime", "date_time", "string", "selects"] {
        assert_eq!(AttributeType::from_str(name), None, "{:?}", name);
    }
}

#[test]
fn task_types_are_stored_under_fixed_numbers() {
    assert_eq!(TaskType::Unknown.as_i32(), 0);
    assert_eq!(TaskType::Default.as_i32(), 1);
    assert_eq!(TaskType::Milestone.as_i32(), 2);
    assert_eq!(TaskType::Checkpoint.as_i32(), 3);
}

#[test]
fn every_stored_number_reads_as_the_unknown_task_type() {
    for number in [i32::MIN, -1, 0, 1, 2, 3, 4, i32::MAX] {
        assert_eq!(TaskType::from_i32(number), TaskType::Unknown);
    }
}

#[test]
fn success_wraps_the_payload() {
    let response = ApiResponse::success(vec![1, 2, 3]);
    assert_eq!(response.code, 200);
    assert_eq!(response.message, "success");
    assert_eq!(response.data, vec![1, 2, 3]);
    let empty = ApiResponse::success(());
    assert_eq!(empty.code, 200);
}

#[test]
fn error_carries_the_default_payload() {
    let response: ApiResponse<Option<u8>> = ApiResponse::error(404, "gone".to_string());
    assert_eq!(response.code, 404);
    assert_eq!(response.message, "gone");
    assert_eq!(response.data, None);
    let response: ApiResponse<Vec<i64>> = ApiResponse::error(500, String::new());
    assert_eq!(response.code, 500);
    assert_eq!(response.message, "");
    assert!(response.data.is_empty());
    let response: ApiResponse<u64> = ApiResponse::error(400, "bad".to_string());
    assert_eq!(response.data, 0);
}

#[test]
fn a_page_holds_its_entries_and_the_total() {
    let page = PageResponse { list: vec!["a", "b"], total: 17 };
    assert_eq!(page.list.len(), 2);
    assert_eq!(page.total, 17);
    let wrapped = ApiResponse::success(page);
    assert_eq!(wrapped.data.total, 17);
    assert!(format!("{:?}", wrapped).contains("total: 17"));
}

#[test]
fn new_accounts_start_active_unless_told_otherwise() {
    let mut params = CreateUserParams {
        username: "u".to_string(),
        password: "p".to_string(),
        full_name: "U".to_string(),
        email: "u@example.org".to_string(),
        phone: None,
        department_id: Some(Id(1)),
        team_ids: Some(vec![Id(2), Id(3)]),
        is_active: None,
    };
    assert!(params.starts_active());
    params.is_active = Some(true);
    assert!(params.starts_active());
    params.is_active = Some(false);
    assert!(!params.starts_active());
}

#[test]
fn request_models_hold_what_was_sent() {
    let register = RegisterRequest {
        username: "n".to_string(),
        password: "secret".to_string(),
        full_name: "N".to_string(),
        email: "n@example.org".to_string(),
        phone: Some("1".to_string()),
    };
    assert_eq!(register.phone.as_deref(), Some("1"));
    let login = LoginRequest { username: "n".to_string(), password: "secret".to_string() };
    assert_eq!(login.username, register.username);
    let update = UpdateUserParams {
        username: None,
        password: None,
        full_name: None,
        email: None,
        phone: None,
        is_active: Some(false),
        department_id: Some(None),
        team_ids: Some(Vec::new()),
    };
    assert_eq!(update.department_id, Some(None));
    let query = UserQueryParams {
        page: Some(2),
        page_size: None,
        keyword: Some("k".to_string()),
        username: None,
        full_name: None,
        email: None,
        phone: None,
        is_active: None,
        department_id: Some(5),
        team_id: None,
    };
    assert_eq!(query.page, Some(2));
    assert!(ToggleUserStatusParams { is_active: true }.is_active);
    assert_eq!(ResetPasswordResponse { temporary_password: "Tmp".to_string() }.temporary_password, "Tmp");
    let profile = UpdateProfileParams { full_name: None, email: None, phone: None };
    assert!(profile.email.is_none());
    assert_eq!(BatchDeleteUsersParams { ids: vec![Id(1)] }.ids, vec![Id(1)]);
    assert_eq!(BatchDeleteProjectsParams { ids: vec![Id(2)] }.ids.len(), 1);
    assert_eq!(ReorderProjectsParams { project_ids: vec![Id(3), Id(1)] }.project_ids[1], Id(1));
    assert_eq!(BatchDeleteTasksParams { ids: Vec::new() }.ids.len(), 0);
    assert_eq!(BatchDeleteTaskAttributeConfigsParams { ids: vec![Id(9)] }.ids[0], Id(9));
    assert_eq!(BatchDeleteHolidaysParams { ids: vec![Id(4)] }.ids[0].0, 4);
    assert_eq!(BatchDeleteDepartmentsParams { ids: vec![Id(4)] }.ids[0].0, 4);
    assert_eq!(BatchDeleteTeamsParams { ids: vec![Id(4)] }.ids[0].0, 4);
    let holidays = BatchUpdateHolidaysParams {
        ids: vec![Id(1)],
        holiday_name: None,
        description: None,
        holiday_type: Some(2),
    };
    assert_eq!(holidays.holiday_type, Some(2));
    let task_query =
        TaskQueryParams { page: None, page_size: Some(5), task_name: None, parent_id: Some(Id(7)) };
    assert_eq!(task_query.parent_id, Some(Id(7)));
    let department = CreateDepartmentParams { department_name: "d".to_string(), description: None };
    assert_eq!(department.department_name, "d");
    let change = UpdateDepartmentParams { department_name: None, description: Some(None) };
    assert_eq!(change.description, Some(None));
    let departments = DepartmentQueryParams { page: None, page_size: None, department_name: None };
    assert!(departments.page.is_none());
    let team = CreateTeamParams { team_name: "t".to_string(), description: None };
    assert_eq!(team.team_name, "t");
    let change = UpdateTeamParams { team_name: Some("x".to_string()), description: None };
    assert_eq!(change.team_name.as_deref(), Some("x"));
    let teams = TeamQueryParams { page: Some(1), page_size: Some(1), team_name: None };
    assert_eq!(teams.page_size, Some(1));
}

use ajou_parser::course::{
    answer_or_empty, course_categories, course_request, get_collection_name, session_cookie,
    upsert_plan, Course, CourseCategory, CourseResp, DatasetList, VariableList,
};

fn course(code: &str, id: &str) -> Course {
    Course { subject_code: code.to_string(), subject_id: id.to_string() }
}

/// A collection as the store keeps it: upsert by key, rows in first-written
/// order.
fn carry_out(rows: &mut Vec<(String, String)>, courses: &[Course], category: &str) -> usize {
    let plan = upsert_plan(category, &courses.iter().map(|c| course(&c.subject_code, &c.subject_id)).collect());
    for write in &plan {
        let document = courses[write.position].subject_id.clone();
        match rows.iter_mut().find(|row| row.0 == write.key) {
            Some(row) => row.1 = document,
            None => rows.push((write.key.clone(), document)),
        }
    }
    plan.len()
}

#[test]
fn collection_is_named_after_the_category() {
    assert_eq!(get_collection_name("전공과목"), "course_2023-1_전공과목");
    assert_eq!(get_collection_name(""), "course_2023-1_");
    assert_eq!(get_collection_name("a b"), "course_2023-1_a b");
}

#[test]
fn categories_in_the_order_of_a_run() {
    let categories = course_categories();
    let codes: Vec<&str> = categories.iter().map(|c| c.code()).collect();
    assert_eq!(
        codes,
        vec![
            "U0209001", "U0209002", "U0209003", "U0209004", "U0209005", "U0209006", "U0209029"
        ]
    );
    let labels: Vec<&str> = categories.iter().map(|c| c.label()).collect();
    assert_eq!(
        labels,
        vec!["전공과목", "교양과목", "기초과목", "공학기초", "영역별교양", "학점교류", "일선과목"]
    );
    assert_eq!(categories[0], CourseCategory::Major);
    assert_eq!(categories[6], CourseCategory::FreeElective);
}

#[test]
fn cookie_header_carries_the_token() {
    assert_eq!(session_cookie("abc"), "JSESSIONID=abc;");
    assert_eq!(session_cookie(""), "JSESSIONID=;");
}

#[test]
fn request_for_a_category() {
    let request = course_request("U0209005", "tok");
    assert_eq!(request.user_agent, ajou_parser::MY_USER_AGENT);
    assert_eq!(request.content_type, "application/json");
    assert_eq!(request.cookie, "JSESSIONID=tok;");
    assert_eq!(request.action, "uni/uni/cour/lssn/findCourLecturePlanDocumentReg.action");
    assert_eq!(request.year, "2023");
    assert_eq!(request.term, "U0002001");
    assert_eq!(request.category, "U0209005");
    assert_eq!(request.jointly_offered, "공동개설");
    assert_eq!(request.timeout_secs, 10);
    assert_eq!(request.connect_timeout_secs, 10);
}

#[test]
fn unreadable_answer_counts_as_empty() {
    let answer = answer_or_empty(None);
    assert_eq!(answer.data_list.ds_cour120.len(), 0);
    assert_eq!(answer.var_list.error_msg, "");
    assert_eq!(answer.var_list.error_code, "");
    let read = CourseResp {
        var_list: VariableList { error_msg: "ok".to_string(), error_code: "0".to_string() },
        data_list: DatasetList { ds_cour120: vec![course("A", "1")] },
    };
    let answer = answer_or_empty(Some(read));
    assert_eq!(answer.var_list.error_msg, "ok");
    assert_eq!(answer.data_list.ds_cour120.len(), 1);
    assert_eq!(answer.data_list.ds_cour120[0].subject_code, "A");
}

#[test]
fn defaults_are_empty() {
    assert_eq!(CourseResp::default().data_list.ds_cour120.len(), 0);
    assert_eq!(DatasetList::default().ds_cour120.len(), 0);
    assert_eq!(VariableList::default().error_code, "");
    assert_eq!(Course::default().subject_code, "");
}

#[test]
fn empty_answer_plans_no_write() {
    let answer = answer_or_empty(None);
    let plan = upsert_plan(CourseCategory::Major.label(), &answer.data_list.ds_cour120);
    assert_eq!(plan.len(), 0);
    assert_eq!(CourseCategory::Major.code(), "U0209001");
}

#[test]
fn one_upsert_for_each_course() {
    let courses = vec![course("MATH101", "7"), course("PHYS101", "8"), course("MATH101", "9")];
    let plan = upsert_plan("교양과목", &courses);
    assert_eq!(plan.len(), 3);
    for (i, write) in plan.iter().enumerate() {
        assert_eq!(write.collection, "course_2023-1_교양과목");
        assert_eq!(write.position, i);
        assert_eq!(write.key, courses[i].subject_code);
    }
}

#[test]
fn second_run_changes_nothing() {
    let courses = vec![
        course("MATH101", "7"),
        course("PHYS101", "8"),
        course("MATH101", "9"),
        course("CHEM101", "10"),
    ];
    let mut rows = vec![("PHYS101".to_string(), "old".to_string()), ("X".to_string(), "x".to_string())];
    assert_eq!(carry_out(&mut rows, &courses, "전공과목"), 4);
    let once = rows.clone();
    assert_eq!(
        once,
        vec![
            ("PHYS101".to_string(), "8".to_string()),
            ("X".to_string(), "x".to_string()),
            ("MATH101".to_string(), "9".to_string()),
            ("CHEM101".to_string(), "10".to_string()),
        ]
    );
    carry_out(&mut rows, &courses, "전공과목");
    assert_eq!(rows, once);
}

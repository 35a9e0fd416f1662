//! The course catalogue: what is asked of the portal, what comes back, and
//! the writes that bring a collection up to date.

use crate::store::{
    keys_unique, law_writes_are_idempotent, law_writes_keep_keys_unique, written, Row,
};
use crate::session::SESSION_COOKIE;
use crate::text::{chars_of, extend_chars, string_of};
use crate::MY_USER_AGENT;
use vstd::prelude::*;

verus! {

// ---------------------------------------------------------------------------
// Records
// ---------------------------------------------------------------------------

/// The status that comes with every answer of the portal.
#[derive(Debug)]
pub struct VariableList {
    pub error_msg: String,
    pub error_code: String,
}

/// What identifies a course. The descriptive fields of a catalogue entry
/// (credits, rooms, lecturers) take no part in any decision and stay with
/// the caller, who finds them again by the position in the answer.
#[derive(Debug)]
pub struct Course {
    /// The subject code: the natural key of a course within its category.
    pub subject_code: String,
    /// The portal's own identifier of the subject.
    pub subject_id: String,
}

/// The data part of an answer.
#[derive(Debug)]
pub struct DatasetList {
    /// The courses of the category that was asked for.
    pub ds_cour120: Vec<Course>,
}

/// An answer of the portal to a course request.
#[derive(Debug)]
pub struct CourseResp {
    pub var_list: VariableList,
    pub data_list: DatasetList,
}

/// A [`Course`] in contracts.
pub struct CourseView {
    pub subject_code: Seq<char>,
    pub subject_id: Seq<char>,
}

/// A [`CourseResp`] in contracts.
pub struct CourseRespView {
    pub error_msg: Seq<char>,
    pub error_code: Seq<char>,
    pub courses: Seq<CourseView>,
}

impl DeepView for Course {
    type V = CourseView;

    open spec fn deep_view(&self) -> CourseView {
        CourseView { subject_code: self.subject_code@, subject_id: self.subject_id@ }
    }
}

impl DeepView for CourseResp {
    type V = CourseRespView;

    open spec fn deep_view(&self) -> CourseRespView {
        CourseRespView {
            error_msg: self.var_list.error_msg@,
            error_code: self.var_list.error_code@,
            courses: self.data_list.ds_cour120.deep_view(),
        }
    }
}

/// The answer that holds nothing: no status text and no course.
pub open spec fn empty_answer() -> CourseRespView {
    CourseRespView { error_msg: Seq::empty(), error_code: Seq::empty(), courses: Seq::empty() }
}

impl Default for VariableList {
    fn default() -> (list: VariableList)
        ensures
            list.error_msg@.len() == 0,
            list.error_code@.len() == 0,
    {
        VariableList { error_msg: String::new(), error_code: String::new() }
    }
}

impl Default for Course {
    fn default() -> (course: Course)
        ensures
            course.subject_code@.len() == 0,
            course.subject_id@.len() == 0,
    {
        Course { subject_code: String::new(), subject_id: String::new() }
    }
}

impl Default for DatasetList {
    fn default() -> (list: DatasetList)
        ensures
            list.ds_cour120@.len() == 0,
    {
        DatasetList { ds_cour120: Vec::new() }
    }
}

impl Default for CourseResp {
    fn default() -> (answer: CourseResp)
        ensures
            answer.deep_view() == empty_answer(),
    {
        let answer = CourseResp {
            var_list: VariableList { error_msg: String::new(), error_code: String::new() },
            data_list: DatasetList { ds_cour120: Vec::new() },
        };
        assert(answer.deep_view().courses =~= Seq::empty());
        assert(answer.deep_view().error_msg =~= Seq::empty());
        assert(answer.deep_view().error_code =~= Seq::empty());
        answer
    }
}

/// What a fetch yields for the caller to go on with: the answer where the
/// body could be read as one, the empty answer where it could not. A
/// category whose answer is unreadable thus counts as holding no course, and
/// the run goes on with the next.
pub fn answer_or_empty(parsed: Option<CourseResp>) -> (answer: CourseResp)
    ensures
        answer.deep_view() == (match parsed {
            Some(read) => read.deep_view(),
            None => empty_answer(),
        }),
{
    match parsed {
        Some(read) => read,
        None => CourseResp::default(),
    }
}

// ---------------------------------------------------------------------------
// Categories
// ---------------------------------------------------------------------------

/// The buckets of the catalogue, in the order in which a run goes through
/// them.
#[derive(Debug, Clone, Copy, PartialEq, Eq, Structural)]
pub enum CourseCategory {
    Major,
    LiberalArts,
    Basic,
    EngineeringBasic,
    LiberalArtsByArea,
    CreditExchange,
    FreeElective,
}

impl CourseCategory {
    /// The code by which the portal knows the category.
    pub open spec fn code_of(self) -> Seq<char> {
        match self {
            CourseCategory::Major => "U0209001"@,
            CourseCategory::LiberalArts => "U0209002"@,
            CourseCategory::Basic => "U0209003"@,
            CourseCategory::EngineeringBasic => "U0209004"@,
            CourseCategory::LiberalArtsByArea => "U0209005"@,
            CourseCategory::CreditExchange => "U0209006"@,
            CourseCategory::FreeElective => "U0209029"@,
        }
    }

    /// The name under which the category's collection is kept.
    pub open spec fn label_of(self) -> Seq<char> {
        match self {
            CourseCategory::Major => "전공과목"@,
            CourseCategory::LiberalArts => "교양과목"@,
            CourseCategory::Basic => "기초과목"@,
            CourseCategory::EngineeringBasic => "공학기초"@,
            CourseCategory::LiberalArtsByArea => "영역별교양"@,
            CourseCategory::CreditExchange => "학점교류"@,
            CourseCategory::FreeElective => "일선과목"@,
        }
    }

    /// The code by which the portal knows the category.
    pub fn code(self) -> (code: &'static str)
        ensures
            code@ == self.code_of(),
    {
        match self {
            CourseCategory::Major => "U0209001",
            CourseCategory::LiberalArts => "U0209002",
            CourseCategory::Basic => "U0209003",
            CourseCategory::EngineeringBasic => "U0209004",
            CourseCategory::LiberalArtsByArea => "U0209005",
            CourseCategory::CreditExchange => "U0209006",
            CourseCategory::FreeElective => "U0209029",
        }
    }

    /// The name under which the category's collection is kept.
    pub fn label(self) -> (label: &'static str)
        ensures
            label@ == self.label_of(),
    {
        match self {
            CourseCategory::Major => "전공과목",
            CourseCategory::LiberalArts => "교양과목",
            CourseCategory::Basic => "기초과목",
            CourseCategory::EngineeringBasic => "공학기초",
            CourseCategory::LiberalArtsByArea => "영역별교양",
            CourseCategory::CreditExchange => "학점교류",
            CourseCategory::FreeElective => "일선과목",
        }
    }
}

/// Every category, in the order of a run.
pub open spec fn all_categories() -> Seq<CourseCategory> {
    seq![
        CourseCategory::Major,
        CourseCategory::LiberalArts,
        CourseCategory::Basic,
        CourseCategory::EngineeringBasic,
        CourseCategory::LiberalArtsByArea,
        CourseCategory::CreditExchange,
        CourseCategory::FreeElective,
    ]
}

/// Every category, in the order of a run. One session token serves them all.
pub fn course_categories() -> (categories: Vec<CourseCategory>)
    ensures
        categories@ == all_categories(),
{
    let mut categories: Vec<CourseCategory> = Vec::new();
    categories.push(CourseCategory::Major);
    categories.push(CourseCategory::LiberalArts);
    categories.push(CourseCategory::Basic);
    categories.push(CourseCategory::EngineeringBasic);
    categories.push(CourseCategory::LiberalArtsByArea);
    categories.push(CourseCategory::CreditExchange);
    categories.push(CourseCategory::FreeElective);
    assert(categories@ =~= all_categories());
    categories
}

// ---------------------------------------------------------------------------
// The request
// ---------------------------------------------------------------------------

/// The portal action that lists the courses of a category.
pub const COURSE_ACTION: &'static str =
    "uni/uni/cour/lssn/findCourLecturePlanDocumentReg.action";

/// The year whose catalogue is kept.
pub const COURSE_YEAR: &'static str = "2023";

/// The portal's code of the term whose catalogue is kept.
pub const COURSE_TERM: &'static str = "U0002001";

/// The value the portal expects in the field on jointly offered courses.
pub const JOINTLY_OFFERED: &'static str = "공동개설";

/// The content type of a course request.
pub const JSON_CONTENT: &'static str = "application/json";

/// Seconds after which a course request is given up, and after which
/// connecting for one is.
pub const COURSE_TIMEOUT_SECS: u64 = 10;

/// Seconds after which connecting to the notice board is given up.
pub const NOTICE_CONNECT_TIMEOUT_SECS: u64 = 5;

/// A request for the courses of one category: the headers, the fields of the
/// body and the time limits. The fields for department, major and subject
/// field are sent empty and have no place here.
#[derive(Debug)]
pub struct CourseRequest {
    pub user_agent: String,
    pub content_type: String,
    pub cookie: String,
    pub action: String,
    pub year: String,
    pub term: String,
    pub category: String,
    pub jointly_offered: String,
    pub timeout_secs: u64,
    pub connect_timeout_secs: u64,
}

/// A [`CourseRequest`] in contracts.
pub struct CourseRequestView {
    pub user_agent: Seq<char>,
    pub content_type: Seq<char>,
    pub cookie: Seq<char>,
    pub action: Seq<char>,
    pub year: Seq<char>,
    pub term: Seq<char>,
    pub category: Seq<char>,
    pub jointly_offered: Seq<char>,
    pub timeout_secs: int,
    pub connect_timeout_secs: int,
}

impl DeepView for CourseRequest {
    type V = CourseRequestView;

    open spec fn deep_view(&self) -> CourseRequestView {
        CourseRequestView {
            user_agent: self.user_agent@,
            content_type: self.content_type@,
            cookie: self.cookie@,
            action: self.action@,
            year: self.year@,
            term: self.term@,
            category: self.category@,
            jointly_offered: self.jointly_offered@,
            timeout_secs: self.timeout_secs as int,
            connect_timeout_secs: self.connect_timeout_secs as int,
        }
    }
}

/// The cookie header that carries the session token `jsession`.
pub open spec fn cookie_of(jsession: Seq<char>) -> Seq<char> {
    SESSION_COOKIE@ + seq!['='] + jsession + seq![';']
}

/// The request for the courses of the category `code` under the session
/// `jsession`.
pub open spec fn request_of(code: Seq<char>, jsession: Seq<char>) -> CourseRequestView {
    CourseRequestView {
        user_agent: MY_USER_AGENT@,
        content_type: JSON_CONTENT@,
        cookie: cookie_of(jsession),
        action: COURSE_ACTION@,
        year: COURSE_YEAR@,
        term: COURSE_TERM@,
        category: code,
        jointly_offered: JOINTLY_OFFERED@,
        timeout_secs: COURSE_TIMEOUT_SECS as int,
        connect_timeout_secs: COURSE_TIMEOUT_SECS as int,
    }
}

/// The cookie header that carries the session token `jsession`.
pub fn session_cookie(jsession: &str) -> (cookie: String)
    ensures
        cookie@ == cookie_of(jsession@),
{
    let mut cookie = chars_of(SESSION_COOKIE);
    cookie.push('=');
    extend_chars(&mut cookie, &chars_of(jsession));
    cookie.push(';');
    string_of(&cookie)
}

/// The request for the courses of the category `str_submatt_fg` under the
/// session `jsession`.
pub fn course_request(str_submatt_fg: &str, jsession: &str) -> (request: CourseRequest)
    ensures
        request.deep_view() == request_of(str_submatt_fg@, jsession@),
{
    CourseRequest {
        user_agent: String::from_str(MY_USER_AGENT),
        content_type: String::from_str(JSON_CONTENT),
        cookie: session_cookie(jsession),
        action: String::from_str(COURSE_ACTION),
        year: String::from_str(COURSE_YEAR),
        term: String::from_str(COURSE_TERM),
        category: String::from_str(str_submatt_fg),
        jointly_offered: String::from_str(JOINTLY_OFFERED),
        timeout_secs: COURSE_TIMEOUT_SECS,
        connect_timeout_secs: COURSE_TIMEOUT_SECS,
    }
}

// ---------------------------------------------------------------------------
// The writes
// ---------------------------------------------------------------------------

/// The database that holds every collection.
pub const DATABASE: &'static str = "ajou";

/// What every course collection's name starts with: the data set and the
/// year and term.
pub const COLLECTION_PREFIX: &'static str = "course_2023-1_";

/// The field of a stored course by which it is found again.
pub const KEY_FIELD: &'static str = "subject_code";

/// The name of the collection that keeps the category `category`.
pub open spec fn collection_of(category: Seq<char>) -> Seq<char> {
    COLLECTION_PREFIX@ + category
}

/// The name of the collection that keeps the category `category`.
pub fn get_collection_name(category: &str) -> (name: String)
    ensures
        name@ == collection_of(category@),
{
    let mut name = String::from_str(COLLECTION_PREFIX);
    name.append(category);
    name
}

/// One write: put the course at `position` of the answer into `collection`,
/// in place of the course stored under `key` if there is one, as a new one
/// if there is none.
#[derive(Debug)]
pub struct Upsert {
    pub collection: String,
    pub key: String,
    pub position: usize,
}

/// An [`Upsert`] in contracts.
pub struct UpsertView {
    pub collection: Seq<char>,
    pub key: Seq<char>,
    pub position: int,
}

impl DeepView for Upsert {
    type V = UpsertView;

    open spec fn deep_view(&self) -> UpsertView {
        UpsertView { collection: self.collection@, key: self.key@, position: self.position as int }
    }
}

/// The writes for the courses of one category: one for each course, in the
/// order of the answer, each under the course's subject code.
pub open spec fn upserts_of(category: Seq<char>, courses: Seq<CourseView>) -> Seq<UpsertView> {
    Seq::new(
        courses.len(),
        |i: int|
            UpsertView {
                collection: collection_of(category),
                key: courses[i].subject_code,
                position: i,
            },
    )
}

/// The writes that bring the collection of `category` up to date with
/// `courses`: one upsert for each course, none for an empty answer.
pub fn upsert_plan(category: &str, courses: &Vec<Course>) -> (plan: Vec<Upsert>)
    ensures
        plan.deep_view() == upserts_of(category@, courses.deep_view()),
{
    let mut plan: Vec<Upsert> = Vec::new();
    let mut i: usize = 0;
    while i < courses.len()
        invariant
            i <= courses.len(),
            plan.deep_view() == upserts_of(category@, courses.deep_view()).take(i as int),
        decreases courses.len() - i,
    {
        let ghost before = plan.deep_view();
        plan.push(
            Upsert {
                collection: get_collection_name(category),
                key: courses[i].subject_code.clone(),
                position: i,
            },
        );
        assert(plan.deep_view() =~= before.push(
            upserts_of(category@, courses.deep_view())[i as int],
        ));
        i = i + 1;
    }
    plan
}

/// The rows that carrying out `plan` on the answer `courses` writes: for
/// each upsert, the course at its position under its key.
pub open spec fn rows_of(plan: Seq<UpsertView>, courses: Seq<CourseView>) -> Seq<
    Row<Seq<char>, CourseView>,
> {
    Seq::new(plan.len(), |i: int| Row { key: plan[i].key, document: courses[plan[i].position] })
}

/// The plan for an answer writes every course of it, each under its own
/// subject code and in the order of the answer.
pub proof fn law_plan_writes_each_course(category: Seq<char>, courses: Seq<CourseView>)
    ensures
        rows_of(upserts_of(category, courses), courses).len() == courses.len(),
        forall|i: int|
            0 <= i < courses.len() ==> #[trigger] rows_of(
                upserts_of(category, courses),
                courses,
            )[i] == (Row { key: courses[i].subject_code, document: courses[i] }),
{
}

/// Carrying out the plan for the same answer a second time leaves the
/// collection as the first time left it: no row more, no document changed.
/// And a collection without a key twice has none twice afterwards.
pub proof fn law_course_run_is_idempotent(
    stored: Seq<Row<Seq<char>, CourseView>>,
    category: Seq<char>,
    courses: Seq<CourseView>,
)
    ensures
        ({
            let writes = rows_of(upserts_of(category, courses), courses);
            &&& written(written(stored, writes), writes) == written(stored, writes)
            &&& keys_unique(stored) ==> keys_unique(written(stored, writes))
        }),
{
    let writes = rows_of(upserts_of(category, courses), courses);
    law_writes_are_idempotent(stored, writes);
    if keys_unique(stored) {
        law_writes_keep_keys_unique(stored, writes);
    }
}

} // verus!

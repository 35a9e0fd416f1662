//! Notices: the request that lists them and the records made of a page.

use crate::html::{
    first_texts, nested_anchors, select_first_texts, select_nested_anchors, Anchor, AnchorView,
};
use crate::text::{
    chars_of, decimal, decimal_of, extend_chars, parse_i32, parsed_i32, remove_all, same_text,
    string_of, trim, trimmed, without,
};
use crate::{Notice, NoticeView, AJOU_LINK};
use vstd::prelude::*;

verus! {

/// How many notices are asked for when the caller names no number.
pub const DEFAULT_NUM_ARTICLES: usize = 7;

/// The query option that stands for the whole board.
pub const WHOLE_BOARD: &'static str = "ajou";

/// Query of the whole board, up to the number of notices.
pub const QUERY_WHOLE: &'static str = "?mode=list&article.offset=0&articleLimit=";

/// Query of one search facet, up to the facet.
pub const QUERY_FACET_HEAD: &'static str = "?mode=list&srSearchKey=&srSearchVal=";

/// Query of one search facet, from the facet to the number of notices.
pub const QUERY_FACET_TAIL: &'static str = "&article.offset=0&articleLimit=";

/// The query string for `option`, ready for the number of notices.
pub open spec fn query_of(option: Seq<char>) -> Seq<char> {
    if option == WHOLE_BOARD@ {
        QUERY_WHOLE@
    } else {
        QUERY_FACET_HEAD@ + option + QUERY_FACET_TAIL@
    }
}

/// The query string for `query_option`, ready for the number of notices:
/// the plain listing for the whole board, a search by facet for anything
/// else. The facet is put in as it is.
pub fn get_query(query_option: &str) -> (query: String)
    ensures
        query@ == query_of(query_option@),
{
    let option = chars_of(query_option);
    if same_text(&option, &chars_of(WHOLE_BOARD)) {
        String::from_str(QUERY_WHOLE)
    } else {
        let mut query = String::from_str(QUERY_FACET_HEAD);
        query.append(query_option);
        query.append(QUERY_FACET_TAIL);
        query
    }
}

/// The address that lists the newest notices of `option`; `count` says how
/// many, and none stands for [`DEFAULT_NUM_ARTICLES`].
pub open spec fn url_of(option: Seq<char>, count: Option<usize>) -> Seq<char> {
    AJOU_LINK@ + query_of(option) + decimal(
        match count {
            Some(n) => n as nat,
            None => DEFAULT_NUM_ARTICLES as nat,
        },
    )
}

/// The address to fetch for the newest `nums` notices of `query_option`.
pub fn notice_url(query_option: &str, nums: Option<usize>) -> (url: String)
    ensures
        url@ == url_of(query_option@, nums),
{
    let count: usize = match nums {
        Some(n) => n,
        None => DEFAULT_NUM_ARTICLES,
    };
    let mut url = String::from_str(AJOU_LINK);
    let query = get_query(query_option);
    url.append(query.as_str());
    let digits = string_of(&decimal_of(count));
    url.append(digits.as_str());
    url
}

// ---------------------------------------------------------------------------
// Cleaning a title
// ---------------------------------------------------------------------------

/// What the board appends to a title to offer the whole text.
pub const SEE_MORE: &'static str = " 자세히 보기";

/// What the board puts into the title of a notice that is posted again.
pub const POSTED_AGAIN: &'static str = "(재공지)";

/// The writer of a notice whose writer cell holds no text.
pub const UNKNOWN_WRITER: &'static str = "알 수 없음";

/// The writer's name as the board repeats it inside a title.
pub open spec fn writer_tag(writer: Seq<char>) -> Seq<char> {
    seq!['['] + writer + seq![']']
}

/// A title without what the board adds to it: the writer's name in square
/// brackets, the offer to see more and the mark of a repeated notice, each
/// wherever it stands, then the white space left at either end.
pub open spec fn cleaned_title(title: Seq<char>, writer: Seq<char>) -> Seq<char> {
    trim(
        remove_all(
            remove_all(remove_all(title, writer_tag(writer)), SEE_MORE@),
            POSTED_AGAIN@,
        ),
    )
}

fn clean_chars(title: &Vec<char>, writer: &Vec<char>) -> (out: Vec<char>)
    ensures
        out@ == cleaned_title(title@, writer@),
{
    let mut tag: Vec<char> = Vec::new();
    tag.push('[');
    extend_chars(&mut tag, writer);
    tag.push(']');
    assert(tag@ == writer_tag(writer@));
    let untagged = without(title, &tag);
    let unoffered = without(&untagged, &chars_of(SEE_MORE));
    let unmarked = without(&unoffered, &chars_of(POSTED_AGAIN));
    trimmed(&unmarked)
}

/// The title of a notice by `writer`, without what the board adds to it.
pub fn clean_title(title: &str, writer: &str) -> (out: String)
    ensures
        out@ == cleaned_title(title@, writer@),
{
    string_of(&clean_chars(&chars_of(title), &chars_of(writer)))
}

// ---------------------------------------------------------------------------
// From parallel selections to notices
// ---------------------------------------------------------------------------

/// The cells of a page, one column per field, each in page order. A cell of
/// the first four columns is the text found in it, if any; a cell of the last
/// is the link found in a title box, if any.
#[derive(Debug)]
pub struct Selections {
    pub ids: Vec<Option<String>>,
    pub dates: Vec<Option<String>>,
    pub writers: Vec<Option<String>>,
    pub categories: Vec<Option<String>>,
    pub anchors: Vec<Option<Anchor>>,
}

/// [`Selections`] in contracts.
pub struct SelectionsView {
    pub ids: Seq<Option<Seq<char>>>,
    pub dates: Seq<Option<Seq<char>>>,
    pub writers: Seq<Option<Seq<char>>>,
    pub categories: Seq<Option<Seq<char>>>,
    pub anchors: Seq<Option<AnchorView>>,
}

impl DeepView for Selections {
    type V = SelectionsView;

    open spec fn deep_view(&self) -> SelectionsView {
        SelectionsView {
            ids: self.ids.deep_view(),
            dates: self.dates.deep_view(),
            writers: self.writers.deep_view(),
            categories: self.categories.deep_view(),
            anchors: self.anchors.deep_view(),
        }
    }
}

/// How far each column but the first has been read.
#[derive(Debug, Clone, Copy)]
pub struct Cursor {
    pub date: usize,
    pub writer: usize,
    pub category: usize,
    pub anchor: usize,
}

/// A [`Cursor`] in contracts.
pub struct Places {
    pub date: int,
    pub writer: int,
    pub category: int,
    pub anchor: int,
}

impl View for Cursor {
    type V = Places;

    open spec fn view(&self) -> Places {
        Places {
            date: self.date as int,
            writer: self.writer as int,
            category: self.category as int,
            anchor: self.anchor as int,
        }
    }
}

/// Every column at its first cell.
pub open spec fn at_start() -> Places {
    Places { date: 0, writer: 0, category: 0, anchor: 0 }
}

/// The notice that one cell of each column makes, if they make one: the
/// number cell must hold a number, the link a title and an address. The
/// texts are trimmed, the title cleaned, and a writer cell without text
/// stands for [`UNKNOWN_WRITER`].
pub open spec fn composed(
    id: Option<Seq<char>>,
    date: Seq<char>,
    writer: Option<Seq<char>>,
    category: Seq<char>,
    anchor: Option<AnchorView>,
) -> Option<NoticeView> {
    match (id, anchor) {
        (Some(number), Some(AnchorView { title: Some(title), href: Some(href) })) => {
            match parse_i32(trim(number)) {
                Some(id) => {
                    let writer = trim(
                        match writer {
                            Some(name) => name,
                            None => UNKNOWN_WRITER@,
                        },
                    );
                    Some(
                        NoticeView {
                            id,
                            category: trim(category),
                            title: cleaned_title(title, writer),
                            date: trim(date),
                            link: AJOU_LINK@ + href,
                            writer,
                        },
                    )
                },
                None => None,
            }
        },
        _ => None,
    }
}

/// Reading the row of the number cell `i` with the other columns at `at`:
/// where the columns stand afterwards, and the notice read, if any.
///
/// The columns are read in the order date, writer, category, link, one cell
/// each, and the reading of a row stops at the first column that has run
/// out, or whose cell holds no text (date, category). The cells taken until
/// then stay taken, so a row that is dropped early shifts the rows after it.
pub open spec fn read_row(s: SelectionsView, i: int, at: Places) -> (Places, Option<NoticeView>) {
    if !(0 <= at.date < s.dates.len()) {
        (at, None)
    } else {
        let at = Places { date: at.date + 1, ..at };
        if s.dates[at.date - 1] is None || !(0 <= at.writer < s.writers.len()) {
            (at, None)
        } else {
            let at = Places { writer: at.writer + 1, ..at };
            if !(0 <= at.category < s.categories.len()) {
                (at, None)
            } else {
                let at = Places { category: at.category + 1, ..at };
                if s.categories[at.category - 1] is None || !(0 <= at.anchor < s.anchors.len()) {
                    (at, None)
                } else {
                    let at = Places { anchor: at.anchor + 1, ..at };
                    (
                        at,
                        composed(
                            s.ids[i],
                            s.dates[at.date - 1]->0,
                            s.writers[at.writer - 1],
                            s.categories[at.category - 1]->0,
                            s.anchors[at.anchor - 1],
                        ),
                    )
                }
            }
        }
    }
}

/// The notices read from the number cell `i` on, in page order.
pub open spec fn rows_from(s: SelectionsView, i: int, at: Places) -> Seq<NoticeView>
    decreases s.ids.len() - i,
{
    if !(0 <= i < s.ids.len()) {
        Seq::empty()
    } else {
        let (next, row) = read_row(s, i, at);
        match row {
            Some(notice) => seq![notice] + rows_from(s, i + 1, next),
            None => rows_from(s, i + 1, next),
        }
    }
}

/// The notices of a page, oldest first: the rows that could be read, in the
/// reverse of page order.
pub open spec fn normalized(s: SelectionsView) -> Seq<NoticeView> {
    rows_from(s, 0, at_start()).reverse()
}

fn trimmed_string(text: &String) -> (out: String)
    ensures
        out@ == trim(text@),
{
    string_of(&trimmed(&chars_of(text.as_str())))
}

fn compose(
    id: &Option<String>,
    date: &String,
    writer: &Option<String>,
    category: &String,
    anchor: &Option<Anchor>,
) -> (row: Option<Notice>)
    ensures
        row.deep_view() == composed(
            id.deep_view(),
            date@,
            writer.deep_view(),
            category@,
            anchor.deep_view(),
        ),
{
    let number = match id {
        Some(number) => number,
        None => {
            return None;
        },
    };
    let (title, href) = match anchor {
        Some(Anchor { title: Some(title), href: Some(href) }) => (title, href),
        _ => {
            return None;
        },
    };
    let id: i32 = match parsed_i32(&trimmed(&chars_of(number.as_str()))) {
        Some(id) => id,
        None => {
            return None;
        },
    };
    let name = match writer {
        Some(name) => trimmed(&chars_of(name.as_str())),
        None => trimmed(&chars_of(UNKNOWN_WRITER)),
    };
    let mut link = String::from_str(AJOU_LINK);
    link.append(href.as_str());
    Some(
        Notice {
            id,
            category: trimmed_string(category),
            title: string_of(&clean_chars(&chars_of(title.as_str()), &name)),
            date: trimmed_string(date),
            link,
            writer: string_of(&name),
        },
    )
}

fn take_row(s: &Selections, i: usize, at: &mut Cursor) -> (row: Option<Notice>)
    requires
        i < s.ids.len(),
    ensures
        (final(at)@, row.deep_view()) == read_row(s.deep_view(), i as int, old(at)@),
{
    if at.date >= s.dates.len() {
        return None;
    }
    let date = &s.dates[at.date];
    at.date = at.date + 1;
    let date = match date {
        Some(date) => date,
        None => {
            return None;
        },
    };
    if at.writer >= s.writers.len() {
        return None;
    }
    let writer = &s.writers[at.writer];
    at.writer = at.writer + 1;
    if at.category >= s.categories.len() {
        return None;
    }
    let category = &s.categories[at.category];
    at.category = at.category + 1;
    let category = match category {
        Some(category) => category,
        None => {
            return None;
        },
    };
    if at.anchor >= s.anchors.len() {
        return None;
    }
    let anchor = &s.anchors[at.anchor];
    at.anchor = at.anchor + 1;
    compose(&s.ids[i], date, writer, category, anchor)
}

/// `items` in the opposite order.
fn reversed(items: Vec<Notice>) -> (out: Vec<Notice>)
    ensures
        out.deep_view() == items.deep_view().reverse(),
{
    let mut items = items;
    let ghost all = items@;
    let mut out: Vec<Notice> = Vec::new();
    while items.len() > 0
        invariant
            items@ == all.take(items@.len() as int),
            items@.len() <= all.len(),
            out@.len() == all.len() - items@.len(),
            forall|k: int| 0 <= k < out@.len() ==> out@[k] == all[all.len() - 1 - k],
        decreases items.len(),
    {
        let last = items.pop().unwrap();
        out.push(last);
    }
    assert(out.deep_view() =~= all.map_values(|n: Notice| n.deep_view()).reverse());
    assert(items.deep_view().len() == 0);
    out
}

/// The notices of a page, oldest first.
///
/// A row is dropped, and the rest still read, where a field is missing: a
/// column that has run out, a date or category cell without text, a title box
/// without a link, a link without title or address, a number cell that holds
/// no number.
pub fn normalize(s: &Selections) -> (out: Vec<Notice>)
    ensures
        out.deep_view() == normalized(s.deep_view()),
{
    let mut rows: Vec<Notice> = Vec::new();
    let mut at = Cursor { date: 0, writer: 0, category: 0, anchor: 0 };
    let mut i: usize = 0;
    while i < s.ids.len()
        invariant
            i <= s.ids.len(),
            rows.deep_view() + rows_from(s.deep_view(), i as int, at@) == rows_from(
                s.deep_view(),
                0,
                at_start(),
            ),
        decreases s.ids.len() - i,
    {
        let ghost before = rows.deep_view();
        let ghost rest = rows_from(s.deep_view(), i as int, at@);
        let ghost (next, read) = read_row(s.deep_view(), i as int, at@);
        match take_row(s, i, &mut at) {
            Some(notice) => {
                rows.push(notice);
                assert(rows.deep_view() == before + seq![read->0]);
            },
            None => {},
        }
        i = i + 1;
    }
    reversed(rows)
}

// ---------------------------------------------------------------------------
// From a page to notices
// ---------------------------------------------------------------------------

/// Selector of the cells that hold a notice's number.
pub const ID_CELLS: &'static str = "td.b-num-box";

/// Selector of the cells that hold a notice's date.
pub const DATE_CELLS: &'static str = "span.b-date";

/// Selector of the cells that hold a notice's writer.
pub const WRITER_CELLS: &'static str = "span.b-writer";

/// Selector of the cells that hold a notice's category.
pub const CATEGORY_CELLS: &'static str = "span.b-cate";

/// Selector of the boxes that hold a notice's title as a link.
pub const TITLE_BOXES: &'static str = "div.b-title-box";

/// Selector of a link inside a title box.
pub const LINK: &'static str = "a";

/// The attribute of a link that holds the title.
pub const TITLE_ATTRIBUTE: &'static str = "title";

/// The attribute of a link that holds the address, relative to the board.
pub const ADDRESS_ATTRIBUTE: &'static str = "href";

/// The columns of the page `body`; none where a selector is refused.
pub open spec fn selections_of(body: Seq<char>) -> Option<SelectionsView> {
    match (
        first_texts(body, ID_CELLS@),
        first_texts(body, DATE_CELLS@),
        first_texts(body, WRITER_CELLS@),
        first_texts(body, CATEGORY_CELLS@),
        nested_anchors(body, TITLE_BOXES@, LINK@, TITLE_ATTRIBUTE@, ADDRESS_ATTRIBUTE@),
    ) {
        (Some(ids), Some(dates), Some(writers), Some(categories), Some(anchors)) => Some(
            SelectionsView { ids, dates, writers, categories, anchors },
        ),
        _ => None,
    }
}

/// The notices that the page `body` lists, oldest first; none where a
/// selector is refused.
pub open spec fn notices_of(body: Seq<char>) -> Option<Seq<NoticeView>> {
    match selections_of(body) {
        Some(s) => Some(normalized(s)),
        None => None,
    }
}

/// The columns of the page `body`.
pub fn select_columns(body: &str) -> (s: Option<Selections>)
    ensures
        s.deep_view() == selections_of(body@),
{
    let ids = select_first_texts(body, ID_CELLS)?;
    let dates = select_first_texts(body, DATE_CELLS)?;
    let writers = select_first_texts(body, WRITER_CELLS)?;
    let categories = select_first_texts(body, CATEGORY_CELLS)?;
    let anchors = select_nested_anchors(
        body,
        TITLE_BOXES,
        LINK,
        TITLE_ATTRIBUTE,
        ADDRESS_ATTRIBUTE,
    )?;
    Some(Selections { ids, dates, writers, categories, anchors })
}

/// The notices that the page `body` lists, oldest first.
///
/// `body` is the text of a listing fetched from [`notice_url`]. Rows with a
/// missing field are dropped as [`normalize`] says. The result is none only
/// where the page reader refuses one of this module's selectors.
pub fn notice_parse(body: &str) -> (notices: Option<Vec<Notice>>)
    ensures
        notices.deep_view() == notices_of(body@),
{
    match select_columns(body) {
        Some(s) => Some(normalize(&s)),
        None => None,
    }
}

} // verus!

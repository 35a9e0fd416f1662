use ajou_parser::html::Anchor;
use ajou_parser::notice::{
    clean_title, get_query, normalize, notice_parse, notice_url, Selections,
};
use ajou_parser::Notice;

fn cell(text: &str) -> Option<String> {
    Some(text.to_string())
}

fn anchor(title: &str, href: &str) -> Option<Anchor> {
    Some(Anchor { title: cell(title), href: cell(href) })
}

fn page(rows: &[(&str, &str, &str, &str, &str, &str)]) -> String {
    let mut body = String::from("<html><body><table><tbody>");
    for (id, category, title, href, date, writer) in rows {
        body.push_str(&format!(
            "<tr><td class=\"b-num-box\">{}</td>\
             <td><span class=\"b-cate\">{}</span></td>\
             <td><div class=\"b-title-box\"><a href=\"{}\" title=\"{}\">link</a></div></td>\
             <td><span class=\"b-date\">{}</span><span class=\"b-writer\">{}</span></td></tr>",
            id, category, href, title, date, writer
        ));
    }
    body.push_str("</tbody></table></body></html>");
    body
}

#[test]
fn title_loses_writer_tag_and_suffix() {
    assert_eq!(clean_title("[Writer] Actual Title 자세히 보기", "Writer"), "Actual Title");
}

#[test]
fn title_loses_repeat_mark() {
    assert_eq!(clean_title("(재공지) 수강신청 안내 자세히 보기", "학사팀"), "수강신청 안내");
    assert_eq!(clean_title("수강(재공지)신청", "x"), "수강신청");
}

#[test]
fn title_loses_every_writer_tag() {
    assert_eq!(clean_title("[A]one[A]two[A]", "A"), "onetwo");
}

#[test]
fn title_keeps_other_brackets() {
    assert_eq!(clean_title("[Other] Title", "Writer"), "[Other] Title");
    assert_eq!(clean_title("  plain  ", ""), "plain");
    assert_eq!(clean_title("[] empty tag", ""), "empty tag");
}

#[test]
fn title_cleaning_agrees_with_std() {
    let titles = [
        "[학사팀] 2023-1 장학 안내 자세히 보기",
        "[[w]] nested 자세히 보기 자세히 보기",
        "\u{3000}wide space\u{a0}",
        " 자세히 보 자세히 보기기",
        "(재공(재공지)지)",
        "",
    ];
    for title in titles {
        for writer in ["학사팀", "w", "", "[w]"] {
            let tag = format!("[{}]", writer);
            let expected = title
                .replace(&tag, "")
                .replace(" 자세히 보기", "")
                .replace("(재공지)", "")
                .trim()
                .to_string();
            assert_eq!(clean_title(title, writer), expected, "{:?} by {:?}", title, writer);
        }
    }
}

#[test]
fn query_of_the_whole_board() {
    assert_eq!(get_query("ajou"), "?mode=list&article.offset=0&articleLimit=");
}

#[test]
fn query_of_a_facet() {
    assert_eq!(
        get_query("장학"),
        "?mode=list&srSearchKey=&srSearchVal=장학&article.offset=0&articleLimit="
    );
    assert_eq!(
        get_query(""),
        "?mode=list&srSearchKey=&srSearchVal=&article.offset=0&articleLimit="
    );
    assert_eq!(
        get_query("ajou "),
        "?mode=list&srSearchKey=&srSearchVal=ajou &article.offset=0&articleLimit="
    );
}

#[test]
fn url_with_and_without_a_count() {
    assert_eq!(
        notice_url("ajou", None),
        "https://www.ajou.ac.kr/kr/ajou/notice.do?mode=list&article.offset=0&articleLimit=7"
    );
    assert_eq!(
        notice_url("ajou", Some(1)),
        "https://www.ajou.ac.kr/kr/ajou/notice.do?mode=list&article.offset=0&articleLimit=1"
    );
    assert_eq!(
        notice_url("ajou", Some(120)),
        "https://www.ajou.ac.kr/kr/ajou/notice.do?mode=list&article.offset=0&articleLimit=120"
    );
    assert_eq!(
        notice_url("ajou", Some(0)),
        "https://www.ajou.ac.kr/kr/ajou/notice.do?mode=list&article.offset=0&articleLimit=0"
    );
    assert_eq!(
        notice_url("x", Some(usize::MAX)),
        format!(
            "https://www.ajou.ac.kr/kr/ajou/notice.do?mode=list&srSearchKey=&srSearchVal=x&article.offset=0&articleLimit={}",
            usize::MAX
        )
    );
}

#[test]
fn default_notice_is_empty() {
    let notice = Notice::default();
    assert_eq!(notice.id, 0);
    assert_eq!(notice.title, "");
    assert_eq!(notice.link, "");
}

#[test]
fn page_is_read_oldest_first() {
    let body = page(&[
        ("105", "학사", "[교무팀] 둘째 자세히 보기", "?mode=view&articleNo=2", " 2023-04-12 ", "교무팀"),
        ("104", "장학", "첫째 (재공지)", "?mode=view&articleNo=1", "2023-04-11", " 장학팀 "),
    ]);
    let notices = notice_parse(&body).unwrap();
    assert_eq!(notices.len(), 2);
    assert_eq!(notices[0].id, 104);
    assert_eq!(notices[0].category, "장학");
    assert_eq!(notices[0].title, "첫째");
    assert_eq!(notices[0].date, "2023-04-11");
    assert_eq!(notices[0].writer, "장학팀");
    assert_eq!(
        notices[0].link,
        "https://www.ajou.ac.kr/kr/ajou/notice.do?mode=view&articleNo=1"
    );
    assert_eq!(notices[1].id, 105);
    assert_eq!(notices[1].title, "둘째");
    assert_eq!(notices[1].date, "2023-04-12");
    assert_eq!(notices[1].writer, "교무팀");
}

#[test]
fn page_without_rows_gives_no_notice() {
    assert_eq!(notice_parse("").unwrap().len(), 0);
    assert_eq!(notice_parse("<html><body><p>nothing</p></body></html>").unwrap().len(), 0);
}

#[test]
fn pinned_row_without_a_number_is_dropped() {
    let body = page(&[
        ("공지", "학사", "pinned", "?a=9", "2023-04-13", "w"),
        ("105", "학사", "second", "?a=2", "2023-04-12", "w"),
        ("104", "학사", "first", "?a=1", "2023-04-11", "w"),
    ]);
    let notices = notice_parse(&body).unwrap();
    let ids: Vec<i32> = notices.iter().map(|n| n.id).collect();
    assert_eq!(ids, vec![104, 105]);
    assert_eq!(notices[1].title, "second");
}

#[test]
fn normalize_reads_columns_in_step() {
    let s = Selections {
        ids: vec![cell(" 7 "), cell("8")],
        dates: vec![cell("d7"), cell("d8")],
        writers: vec![cell("w7"), None],
        categories: vec![cell("c7"), cell("c8")],
        anchors: vec![anchor("t7", "/7"), anchor("[알 수 없음] t8", "/8")],
    };
    let notices = normalize(&s);
    assert_eq!(notices.len(), 2);
    assert_eq!(notices[0].id, 8);
    assert_eq!(notices[0].writer, "알 수 없음");
    assert_eq!(notices[0].title, "t8");
    assert_eq!(notices[0].link, "https://www.ajou.ac.kr/kr/ajou/notice.do/8");
    assert_eq!(notices[1].id, 7);
    assert_eq!(notices[1].date, "d7");
    assert_eq!(notices[1].category, "c7");
}

#[test]
fn normalize_drops_a_row_and_shifts_the_rest() {
    // The first date cell holds no text: the first row ends there, having
    // taken one date cell and nothing else.
    let s = Selections {
        ids: vec![cell("1"), cell("2"), cell("3")],
        dates: vec![None, cell("d2"), cell("d3")],
        writers: vec![cell("w1"), cell("w2"), cell("w3")],
        categories: vec![cell("c1"), cell("c2"), cell("c3")],
        anchors: vec![anchor("t1", "/1"), anchor("t2", "/2"), anchor("t3", "/3")],
    };
    let notices = normalize(&s);
    assert_eq!(notices.len(), 2);
    assert_eq!(notices[1].id, 2);
    assert_eq!(notices[1].date, "d2");
    assert_eq!(notices[1].writer, "w1");
    assert_eq!(notices[1].category, "c1");
    assert_eq!(notices[1].title, "t1");
    assert_eq!(notices[0].id, 3);
    assert_eq!(notices[0].date, "d3");
    assert_eq!(notices[0].writer, "w2");
}

#[test]
fn normalize_drops_rows_with_a_missing_field() {
    let s = Selections {
        ids: vec![cell("1"), None, cell("x3"), cell("4"), cell("5"), cell("6"), cell("+7")],
        dates: vec![cell("d"), cell("d"), cell("d"), cell("d"), cell("d"), cell("d"), cell("d")],
        writers: vec![cell("w"), cell("w"), cell("w"), cell("w"), cell("w"), cell("w"), cell("w")],
        categories: vec![cell("c"), cell("c"), cell("c"), cell("c"), cell("c"), cell("c"), cell("c")],
        anchors: vec![
            None,
            anchor("t", "/2"),
            anchor("t", "/3"),
            Some(Anchor { title: None, href: cell("/4") }),
            Some(Anchor { title: cell("t"), href: None }),
            anchor("t6", "/6"),
            anchor("t7", "/7"),
        ],
    };
    let notices = normalize(&s);
    let ids: Vec<i32> = notices.iter().map(|n| n.id).collect();
    assert_eq!(ids, vec![7, 6]);
}

#[test]
fn normalize_stops_where_a_column_runs_out() {
    let s = Selections {
        ids: vec![cell("1"), cell("2"), cell("3")],
        dates: vec![cell("d1"), cell("d2"), cell("d3")],
        writers: vec![cell("w1"), cell("w2"), cell("w3")],
        categories: vec![cell("c1")],
        anchors: vec![anchor("t1", "/1"), anchor("t2", "/2"), anchor("t3", "/3")],
    };
    let notices = normalize(&s);
    assert_eq!(notices.len(), 1);
    assert_eq!(notices[0].id, 1);
    let empty = Selections {
        ids: vec![],
        dates: vec![cell("d1")],
        writers: vec![],
        categories: vec![],
        anchors: vec![],
    };
    assert_eq!(normalize(&empty).len(), 0);
}

#[test]
fn number_cells_follow_integer_syntax() {
    for (text, expected) in [
        ("12", Some(12)),
        ("-12", Some(-12)),
        ("+12", Some(12)),
        ("0012", Some(12)),
        ("2147483647", Some(2147483647)),
        ("2147483648", None),
        ("-2147483648", Some(-2147483648)),
        ("-2147483649", None),
        ("99999999999999999999", None),
        ("", None),
        ("-", None),
        ("+", None),
        ("1 2", None),
        ("1_2", None),
        ("１２", None),
    ] {
        assert_eq!(text.parse::<i32>().ok(), expected, "std on {:?}", text);
        let s = Selections {
            ids: vec![cell(text)],
            dates: vec![cell("d")],
            writers: vec![cell("w")],
            categories: vec![cell("c")],
            anchors: vec![anchor("t", "/")],
        };
        let ids: Vec<i32> = normalize(&s).iter().map(|n| n.id).collect();
        assert_eq!(ids, expected.into_iter().collect::<Vec<i32>>(), "on {:?}", text);
    }
}

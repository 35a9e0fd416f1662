//! Synchronisation of a university's notice board and course catalogue.
//!
//! The crate holds the decisions of the synchroniser as verified functions on
//! plain values: how a page of notices becomes records ([`notice`], reading
//! the page through [`html`]), how a login run turns into a session token
//! ([`session`], with the browser's part in [`browser`]), when to poll
//! ([`schedule`]), which notices are missing ([`sync`]) and how course records
//! are written back ([`course`], over the model of a collection in
//! [`store`]). [`text`] holds what they share on strings. Network, browser,
//! clock and database are the caller's: it performs the action a function
//! names and hands back what happened.

use vstd::prelude::*;

pub mod browser;
pub mod course;
pub mod html;
pub mod notice;
pub mod schedule;
pub mod session;
pub mod store;
pub mod sync;
pub mod text;

verus! {

/// Address of the notice board.
pub const AJOU_LINK: &'static str = "https://www.ajou.ac.kr/kr/ajou/notice.do";

/// The browser identification sent with every request.
pub const MY_USER_AGENT: &'static str =
    "Mozilla/5.0 (Windows NT 10.0; Win64; x64) AppleWebKit/537.36 (KHTML, like Gecko) Chrome/112.0.0.0 Safari/537.36";

/// One notice of the board.
#[derive(Debug, Clone)]
pub struct Notice {
    /// The number the board gave the notice; later notices have higher ones.
    pub id: i32,
    /// The facet the notice is filed under.
    pub category: String,
    /// The title, cleaned of what the board adds to it.
    pub title: String,
    /// The date the board shows.
    pub date: String,
    /// Address of the notice itself.
    pub link: String,
    /// Who posted it.
    pub writer: String,
}

/// A [`Notice`] in contracts.
pub struct NoticeView {
    pub id: int,
    pub category: Seq<char>,
    pub title: Seq<char>,
    pub date: Seq<char>,
    pub link: Seq<char>,
    pub writer: Seq<char>,
}

impl DeepView for Notice {
    type V = NoticeView;

    open spec fn deep_view(&self) -> NoticeView {
        NoticeView {
            id: self.id as int,
            category: self.category@,
            title: self.title@,
            date: self.date@,
            link: self.link@,
            writer: self.writer@,
        }
    }
}

impl Default for Notice {
    fn default() -> (notice: Notice)
        ensures
            notice.deep_view() == (NoticeView {
                id: 0,
                category: Seq::empty(),
                title: Seq::empty(),
                date: Seq::empty(),
                link: Seq::empty(),
                writer: Seq::empty(),
            }),
    {
        Notice {
            id: 0,
            category: String::new(),
            title: String::new(),
            date: String::new(),
            link: String::new(),
            writer: String::new(),
        }
    }
}

} // verus!

//! Page context builders: the fixed context values the server-rendered
//! index pages hand to the template engine, and the canned JSON greeting
//! of the hello endpoint. Rendering and transport live outside the
//! library.

use vstd::prelude::*;

verus! {

/// The context a rendered index page consumes.
#[derive(Debug)]
pub struct IndexPageData {
    pub title: &'static str,
    pub heading: &'static str,
    pub message: &'static str,
    pub show_extra_info: bool,
}

/// The context of the site's front page.
pub fn index_page_data() -> (r: IndexPageData)
    ensures
        r.title@ == "Auteur.Engineer (from index_handler)"@,
        r.heading@ == "Welcome to Auteur.Engineer"@,
        r.message@ == "This is a message for Autuer from the index_handler"@,
        r.show_extra_info,
{
    IndexPageData {
        title: "Auteur.Engineer (from index_handler)",
        heading: "Welcome to Auteur.Engineer",
        message: "This is a message for Autuer from the index_handler",
        show_extra_info: true,
    }
}

/// The context of the mario page.
pub fn mario_page_data() -> (r: IndexPageData)
    ensures
        r.title@ == "Mario Page"@,
        r.heading@ == "Welcome to Auteur.Engineer"@,
        r.message@ == "Click on the Mario Coin Box"@,
        r.show_extra_info,
{
    IndexPageData {
        title: "Mario Page",
        heading: "Welcome to Auteur.Engineer",
        message: "Click on the Mario Coin Box",
        show_extra_info: true,
    }
}

/// The body of a JSON API response.
#[derive(Debug)]
pub struct ApiResponse {
    pub message: String,
    pub status_code: u16,
    pub data: Option<String>,
}

/// The canned greeting the hello endpoint answers with.
pub fn hello_response() -> (r: ApiResponse)
    ensures
        r.message@ == "hello_JSON from api_handler"@,
        r.status_code == 200,
        r.data matches Some(d) && d@ == "this is some example data"@,
{
    ApiResponse {
        message: "hello_JSON from api_handler".to_owned(),
        status_code: 200,
        data: Some("this is some example data".to_owned()),
    }
}

} // verus!

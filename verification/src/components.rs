//! The view components of the job board: page layout, navigation
//! links, the job summary card, the job detail block, and the welcome
//! placeholder.  Each builder's contract gives the exact HTML its tree
//! renders to.

use vstd::prelude::*;

use crate::jobs::JobDetails;
use crate::view::{
    attr_text, attrs0, attrs1, attrs2, attrs3, elem_plain, elem_text, element, escape_seq, nodes0,
    nodes1, nodes2, nodes8, render_nodes, render_spec, text, text_owned, Node,
};

verus! {

/// The font stylesheet inlined into every page head.
pub const FONTSTYLE: &'static str = r###"
@font-face {
    font-family: 'Sofia Pro';
    font-style: normal;
    font-weight: 400;
    src: local("Sofia Pro"), url(/static/fonts/SofiaPro400.woff) format('woff');
    font-display: swap;
}
@font-face {
    font-family: 'Sofia Pro';
    font-style: normal;
    font-weight: 700;
    src: local("Sofia Pro"), url(/static/fonts/SofiaPro700.woff) format('woff');
    font-display: swap;
}
"###;

/// The styling configuration script inlined into every page head.
pub const TAILWINDCONFIG: &'static str = r###"
tailwind.config = {
    theme: {
        extend: {
            colors: {
                light: "#e5e5e5",
                dark: "#151514",
                "dark-weak": "#252422",
                accent: "#A83B10",
                "link": "#818AA3",
            },
            dropShadow: {
                "colored-sm": "0 0 1px var(--tw-shadow-color)",
                "colored": "0 0 2px var(--tw-shadow-color)",
                "colored-md": "0 0 3px var(--tw-shadow-color)",
                "colored-lg": "0 0 8px var(--tw-shadow-color)",
            }
        },
        fontFamily: {
            sans: ["Sofia Pro", "Lato", "sans-serif"],
        }
    }
};"###;

/// How a navigation link renders.
pub open spec fn nav_link_text(title: Seq<char>, url: Seq<char>) -> Seq<char> {
    elem_text(
        "a"@,
        attr_text("href"@, url) + attr_text("class"@, "text-gray-300 hover:text-gray-100"@),
        escape_seq(title),
    )
}

/// A navigation link in the page header.
#[allow(non_snake_case)]
pub fn NavLink(title: &str, url: &str) -> (r: Node)
    ensures
        render_spec(r) == nav_link_text(title@, url@),
{
    element(
        "a",
        attrs2("href", String::from_str(url), "class", String::from_str(
            "text-gray-300 hover:text-gray-100",
        )),
        nodes1(text(title)),
    )
}

/// How the fixed page head renders.
pub open spec fn head_text() -> Seq<char> {
    elem_plain(
        "head"@,
        elem_plain("title"@, escape_seq("Want Job"@)) + elem_text(
            "meta"@,
            attr_text("charset"@, "UTF-8"@),
            Seq::<char>::empty(),
        ) + elem_text(
            "meta"@,
            attr_text("name"@, "viewport"@) + attr_text(
                "content"@,
                "width=device-width, initial-scale=1"@,
            ),
            Seq::<char>::empty(),
        ) + elem_text(
            "link"@,
            attr_text("rel"@, "icon"@) + attr_text("href"@, "/static/favicon.svg"@),
            Seq::<char>::empty(),
        ) + elem_text(
            "script"@,
            attr_text("src"@, "https://unpkg.com/htmx.org@1.9.9/dist/htmx.min.js"@),
            Seq::<char>::empty(),
        ) + elem_text(
            "script"@,
            attr_text("src"@, "https://cdn.tailwindcss.com/3.3.5"@),
            Seq::<char>::empty(),
        ) + elem_plain("script"@, escape_seq(TAILWINDCONFIG@)) + elem_plain(
            "style"@,
            escape_seq(FONTSTYLE@),
        ),
    )
}

/// How the fixed page header (brand and navigation) renders.
pub open spec fn header_text() -> Seq<char> {
    elem_text(
        "header"@,
        attr_text("class"@, "py-3 bg-dark-weak shadow-md"@),
        elem_text(
            "nav"@,
            attr_text(
                "class"@,
                "container flex mx-auto justify-between items-center px-2 xl:max-w-screen-xl lg:max-w-screen-lg md:max-w-screen-md"@,
            ),
            elem_text(
                "div"@,
                attr_text("class"@, "flex items-center"@),
                elem_text(
                    "a"@,
                    attr_text("href"@, "/"@) + attr_text(
                        "class"@,
                        "flex text-accent text-center text-3xl font-bold"@,
                    ),
                    elem_text(
                        "img"@,
                        attr_text("src"@, "/static/favicon.svg"@) + attr_text(
                            "class"@,
                            "max-h-10 inline mr-2 drop-shadow-colored"@,
                        ),
                        Seq::<char>::empty(),
                    ) + elem_text(
                        "span"@,
                        attr_text("class"@, "drop-shadow-colored"@),
                        escape_seq("WantJob"@),
                    ),
                ),
            ) + elem_text(
                "div"@,
                attr_text("class"@, "flex center-items space-x-4"@),
                nav_link_text("Login"@, "#"@) + nav_link_text("Register"@, "#"@),
            ),
        ),
    )
}

/// How the full page shell renders around already-rendered inner
/// content.
pub open spec fn layout_text(inner: Seq<char>) -> Seq<char> {
    elem_text(
        "html"@,
        attr_text("lang"@, "en"@),
        head_text() + elem_text(
            "body"@,
            attr_text("class"@, "h-screen bg-dark text-light text-base font-sans m-0"@),
            header_text() + elem_text(
                "main"@,
                attr_text("class"@, "mb-auto mx-auto mt-2 max-w-screen-xl md:text-lg text-base"@),
                inner,
            ),
        ),
    )
}

/// The page shell: head, header with brand and navigation, and a main
/// region holding the given children.
#[allow(non_snake_case)]
pub fn Layout(children: Vec<Node>) -> (r: Node)
    ensures
        render_spec(r) == layout_text(render_nodes(children@)),
{
    let head = element(
        "head",
        attrs0(),
        nodes8(
            element("title", attrs0(), nodes1(text("Want Job"))),
            element("meta", attrs1("charset", String::from_str("UTF-8")), nodes0()),
            element(
                "meta",
                attrs2("name", String::from_str("viewport"), "content", String::from_str(
                    "width=device-width, initial-scale=1",
                )),
                nodes0(),
            ),
            element(
                "link",
                attrs2("rel", String::from_str("icon"), "href", String::from_str(
                    "/static/favicon.svg",
                )),
                nodes0(),
            ),
            element(
                "script",
                attrs1("src", String::from_str("https://unpkg.com/htmx.org@1.9.9/dist/htmx.min.js")),
                nodes0(),
            ),
            element(
                "script",
                attrs1("src", String::from_str("https://cdn.tailwindcss.com/3.3.5")),
                nodes0(),
            ),
            element("script", attrs0(), nodes1(text(TAILWINDCONFIG))),
            element("style", attrs0(), nodes1(text(FONTSTYLE))),
        ),
    );
    let brand = element(
        "a",
        attrs2("href", String::from_str("/"), "class", String::from_str(
            "flex text-accent text-center text-3xl font-bold",
        )),
        nodes2(
            element(
                "img",
                attrs2("src", String::from_str("/static/favicon.svg"), "class", String::from_str(
                    "max-h-10 inline mr-2 drop-shadow-colored",
                )),
                nodes0(),
            ),
            element("span", attrs1("class", String::from_str("drop-shadow-colored")), nodes1(
                text("WantJob"),
            )),
        ),
    );
    let header = element(
        "header",
        attrs1("class", String::from_str("py-3 bg-dark-weak shadow-md")),
        nodes1(
            element(
                "nav",
                attrs1("class", String::from_str(
                    "container flex mx-auto justify-between items-center px-2 xl:max-w-screen-xl lg:max-w-screen-lg md:max-w-screen-md",
                )),
                nodes2(
                    element("div", attrs1("class", String::from_str("flex items-center")), nodes1(
                        brand,
                    )),
                    element(
                        "div",
                        attrs1("class", String::from_str("flex center-items space-x-4")),
                        nodes2(NavLink("Login", "#"), NavLink("Register", "#")),
                    ),
                ),
            ),
        ),
    );
    let main = element(
        "main",
        attrs1("class", String::from_str("mb-auto mx-auto mt-2 max-w-screen-xl md:text-lg text-base")),
        children,
    );
    let body = element(
        "body",
        attrs1("class", String::from_str("h-screen bg-dark text-light text-base font-sans m-0")),
        nodes2(header, main),
    );
    element("html", attrs1("lang", String::from_str("en")), nodes2(head, body))
}

/// How the listing page's two-pane wrapper renders around the
/// rendered job list and detail pane.
pub open spec fn jobs_page_wrap_text(list: Seq<char>, pane: Seq<char>) -> Seq<char> {
    elem_text(
        "div"@,
        attr_text("class"@, "h-full flex"@),
        elem_text("div"@, attr_text("class"@, "basis-[48rem] mr-2 overflow-auto h-full"@), list)
            + elem_text(
            "div"@,
            attr_text("class"@, "basis-full bg-dark-weak rounded-sm overflow-auto h-full"@),
            pane,
        ),
    )
}

/// How a company logo image renders.
pub open spec fn company_logo_text(name: Seq<char>) -> Seq<char> {
    elem_text(
        "img"@,
        attr_text("src"@, "https://logo.clearbit.com/"@ + name) + attr_text(
            "class"@,
            "h-16 rounded-lg mr-4"@,
        ),
        Seq::<char>::empty(),
    )
}

/// The logo image for a company, fetched from a logo service by name.
#[allow(non_snake_case)]
pub fn CompanyLogo(name: String) -> (r: Node)
    ensures
        render_spec(r) == company_logo_text(name@),
{
    let src = String::from_str("https://logo.clearbit.com/").concat(name.as_str());
    element(
        "img",
        attrs2("src", src, "class", String::from_str("h-16 rounded-lg mr-4")),
        nodes0(),
    )
}

/// How one job summary card renders.
pub open spec fn job_summary_text(
    id: Seq<char>,
    title: Seq<char>,
    company: Seq<char>,
    location: Seq<char>,
    salary: Seq<char>,
) -> Seq<char> {
    elem_text(
        "a"@,
        attr_text("hx-get"@, "/htmx/jobs/details/"@ + id) + attr_text("hx-target"@, "#job-details"@)
            + attr_text(
            "class"@,
            "bg-dark-weak flex p-2 rounded-sm hover:bg-white/10 cursor-pointer mb-1"@,
        ),
        company_logo_text(company + ".com"@) + elem_text(
            "div"@,
            attr_text("class"@, "grow"@),
            elem_text(
                "div"@,
                attr_text("class"@, "flex grow justify-between"@),
                elem_text(
                    "p"@,
                    attr_text("class"@, "underline text-link font-bold"@),
                    escape_seq(title),
                ) + elem_plain("p"@, escape_seq(company)),
            ) + elem_text(
                "div"@,
                attr_text("class"@, "flex grow justify-between"@),
                elem_plain("p"@, escape_seq(location)) + elem_text(
                    "p"@,
                    attr_text("class"@, "rounded-sm px-2 text-[#FFFCF2] bg-accent"@),
                    escape_seq(salary),
                ),
            ),
        ),
    )
}

/// A clickable summary card for one job posting.
#[allow(non_snake_case)]
pub fn JobSummary(job: JobDetails) -> (r: Node)
    ensures
        render_spec(r) == job_summary_text(
            job.id@,
            job.title@,
            job.company@,
            job.location@,
            job.salary@,
        ),
{
    let target = String::from_str("/htmx/jobs/details/").concat(job.id.as_str());
    let logo = CompanyLogo(job.company.clone().concat(".com"));
    let titles = element(
        "div",
        attrs1("class", String::from_str("flex grow justify-between")),
        nodes2(
            element("p", attrs1("class", String::from_str("underline text-link font-bold")), nodes1(
                text_owned(job.title),
            )),
            element("p", attrs0(), nodes1(text_owned(job.company))),
        ),
    );
    let figures = element(
        "div",
        attrs1("class", String::from_str("flex grow justify-between")),
        nodes2(
            element("p", attrs0(), nodes1(text_owned(job.location))),
            element(
                "p",
                attrs1("class", String::from_str("rounded-sm px-2 text-[#FFFCF2] bg-accent")),
                nodes1(text_owned(job.salary)),
            ),
        ),
    );
    element(
        "a",
        attrs3(
            "hx-get",
            target,
            "hx-target",
            String::from_str("#job-details"),
            "class",
            String::from_str("bg-dark-weak flex p-2 rounded-sm hover:bg-white/10 cursor-pointer mb-1"),
        ),
        nodes2(
            logo,
            element("div", attrs1("class", String::from_str("grow")), nodes2(titles, figures)),
        ),
    )
}

/// How the job detail block renders.
pub open spec fn job_posting_details_text(title: Seq<char>, description: Seq<char>) -> Seq<char> {
    elem_text(
        "div"@,
        attr_text("id"@, "job-details"@),
        elem_text("p"@, attr_text("class"@, "font-bold text-3xl"@), escape_seq(title)) + elem_plain(
            "p"@,
            escape_seq(description),
        ),
    )
}

/// The detail block for one job posting.
#[allow(non_snake_case)]
pub fn JobPostingDetails(job: JobDetails) -> (r: Node)
    ensures
        render_spec(r) == job_posting_details_text(job.title@, job.description@),
{
    element(
        "div",
        attrs1("id", String::from_str("job-details")),
        nodes2(
            element("p", attrs1("class", String::from_str("font-bold text-3xl")), nodes1(
                text_owned(job.title),
            )),
            element("p", attrs0(), nodes1(text_owned(job.description))),
        ),
    )
}

/// How the welcome placeholder renders.
pub open spec fn home_page_details_text() -> Seq<char> {
    elem_text(
        "p"@,
        attr_text("class"@, "font-bold text-4xl text-center"@),
        escape_seq("Welcome to WantJob!"@),
    )
}

/// The welcome placeholder shown when no job is selected.
#[allow(non_snake_case)]
pub fn HomePageDetails() -> (r: Node)
    ensures
        render_spec(r) == home_page_details_text(),
{
    element("p", attrs1("class", String::from_str("font-bold text-4xl text-center")), nodes1(
        text("Welcome to WantJob!"),
    ))
}

} // verus!

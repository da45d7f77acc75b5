use hgtui::error::Error;
use hgtui::mode::SearchMode;
use hgtui::parse::{
    first_number, parse_hg_info, parse_hg_star, parse_page, CategoryParser, LastParse,
    NormalParser, Parser, VolumeParser,
};

const SEARCH_PAGE: &str = r#"<html><body><div>
<h2 class="content-subhead"><a class="project-url" href="/periodical/statistics/click/?target=https://github.com/a/first">first</a></h2>
<p>Star 1.2k
   A tool that does things
</p>
<span>第 72 期、Rust 项目</span>
<h2 class="content-subhead"><a class="project-url" href="https://github.com/b/second">second</a></h2>
<p>
   Star 88
   中文
   Another tool
</p>
<span>第 5 期、Python 项目</span>
<h2 class="content-subhead">no link here</h2>
<p>filler</p>
<span>nothing</span>
</div></body></html>"#;

const VOLUME_PAGE: &str = r#"<html><body>
<h1>第 72 期</h1>
<div class="content">
<h2>C 项目</h2>
<a class="project-index" id="one"></a>
<span>1</span>
<a class="project-url" href="/periodical/statistics/click/?target=https://github.com/x/one">one</a>
<span>a</span><span>b</span><span>c</span>
<p><i class="fa">Star 10</i><i class="fa">Watch 2</i><i class="fa">Fork 3</i><br>
First <code>project</code>
<br><img src="x.png"></p>
<a class="project-index" id="two"></a>
<span>2</span>
<a class="project-url" href="https://github.com/x/two">two</a>
<span>a</span><span>b</span><span>c</span>
<p><i class="fa">Star 20</i><i class="fa">Watch 4</i><i class="fa">Fork 6</i><br>Second project</p>
<h2>Rust 项目</h2>
<a class="project-index" id="three"></a>
<span>3</span>
<a class="project-url" href="https://github.com/x/three">three</a>
<span>a</span><span>b</span><span>c</span>
<p><i class="fa">Star 30</i><i class="fa">Watch 6</i><i class="fa">Fork 9</i><br>Third project</p>
</div>
</body></html>"#;

const CATEGORY_PAGE: &str = r#"<html><body>
<h1>Rust 项目</h1>
<h2 class="content-subhead"><a class="project-url" href="/periodical/statistics/click/?target=https://github.com/a/alpha">alpha</a></h2>
<p><i class="fa">第 70 期</i><i class="fa">Star 1.5k</i><i class="fa">Watch 30</i><i class="fa">Fork 200</i><br>
 A <b>fast</b> thing
<br>more</p>
<h2 class="content-subhead">filler without link</h2>
<p>nothing to see</p>
<h2 class="content-subhead"><a class="project-url" href="https://github.com/a/beta">beta</a></h2>
<p><i class="fa">第 71 期</i><i class="fa">Star 7</i><i class="fa">Watch 1</i><i class="fa">Fork 0</i><br>Another thing</p>
</body></html>"#;

#[test]
fn normal_parser_reads_the_search_fixture() {
    let (projects, last) = NormalParser.parse(SEARCH_PAGE.to_string()).unwrap();
    assert!(matches!(last, LastParse::Search));
    assert_eq!(projects.len(), 2);
    for p in &projects {
        assert!(!p.name.is_empty());
        assert!(!p.url.contains("/periodical/statistics/click/?target="));
    }
    assert_eq!(projects[0].name, "first");
    assert_eq!(projects[0].url, "https://github.com/a/first");
    assert_eq!(projects[0].volume, 72);
    assert_eq!(projects[0].category, "Rust");
    assert_eq!(projects[0].star, "1.2k");
    assert_eq!(projects[0].desc, "A tool that does things");
    assert_eq!(projects[0].watch, "N/A");
    assert_eq!(projects[0].fork, "N/A");
    assert_eq!(projects[1].name, "second");
    assert_eq!(projects[1].url, "https://github.com/b/second");
    assert_eq!(projects[1].volume, 5);
    assert_eq!(projects[1].category, "Python");
    assert_eq!(projects[1].star, "88");
    assert_eq!(projects[1].desc, "Another tool");
}

#[test]
fn normal_parser_reports_a_result_without_origin() {
    let page = r#"<h2 class="content-subhead"><a class="project-url" href="x">n</a></h2><p>Star 1</p>"#;
    assert_eq!(
        NormalParser.parse(page.to_string()).err(),
        Some(Error::ParseContractViolation)
    );
}

#[test]
fn normal_parser_finds_nothing_on_an_empty_page() {
    let (projects, _) = NormalParser.parse("".to_string()).unwrap();
    assert!(projects.is_empty());
    let (projects, _) = NormalParser.parse("<p>no results</p>".to_string()).unwrap();
    assert!(projects.is_empty());
}

#[test]
fn volume_parser_reads_the_volume_fixture() {
    let (projects, last) = VolumeParser.parse(VOLUME_PAGE.to_string()).unwrap();
    match last {
        LastParse::Volume(title) => assert_eq!(title, "第 72 期"),
        other => panic!("unexpected {:?}", other),
    }
    assert_eq!(projects.len(), 3);
    assert_eq!(projects[0].name, "one");
    assert_eq!(projects[0].url, "https://github.com/x/one");
    assert_eq!(projects[0].volume, 72);
    assert_eq!(projects[0].star, "10");
    assert_eq!(projects[0].watch, "2");
    assert_eq!(projects[0].fork, "3");
    assert_eq!(projects[0].desc, "First project");
    assert_eq!(projects[1].name, "two");
    assert_eq!(projects[1].desc, "Second project");
    assert_eq!(projects[1].star, "20");
    assert_eq!(projects[2].name, "three");
    assert_eq!(projects[2].url, "https://github.com/x/three");
    assert_eq!(projects[2].fork, "9");
}

#[test]
fn volume_parser_takes_the_category_from_the_nearest_heading_before() {
    let (projects, _) = VolumeParser.parse(VOLUME_PAGE.to_string()).unwrap();
    let categories: Vec<&str> = projects.iter().map(|p| p.category.as_str()).collect();
    assert_eq!(categories, vec!["C", "C", "Rust"]);
}

#[test]
fn volume_parser_reports_an_entry_without_heading() {
    let page = r#"<h1>第 1 期</h1><div>
<a class="project-index" id="one"></a><span>1</span>
<a href="https://github.com/x/one">one</a>
<span>a</span><span>b</span><span>c</span>
<p><i class="fa">Star 10</i><i class="fa">Watch 2</i><i class="fa">Fork 3</i><br>First</p>
</div>"#;
    assert_eq!(
        VolumeParser.parse(page.to_string()).err(),
        Some(Error::ParseContractViolation)
    );
}

#[test]
fn volume_parser_reports_missing_badges() {
    let page = r#"<h1>第 1 期</h1><div><h2>C 项目</h2>
<a class="project-index" id="one"></a><span>1</span>
<a href="https://github.com/x/one">one</a>
<span>a</span><span>b</span><span>c</span>
<p><i class="fa">Star 10</i><i class="fa">Watch 2</i><br>First</p>
</div>"#;
    assert_eq!(
        VolumeParser.parse(page.to_string()).err(),
        Some(Error::ParseContractViolation)
    );
}

#[test]
fn volume_parser_drops_an_entry_without_link() {
    let page = r#"<h1>第 1 期</h1><div><h2>C 项目</h2>
<a class="project-index" id="one"></a><span>1</span><span>not a link</span>
</div>"#;
    let (projects, _) = VolumeParser.parse(page.to_string()).unwrap();
    assert!(projects.is_empty());
}

#[test]
fn category_parser_reads_the_category_fixture() {
    let (projects, last) = CategoryParser.parse(CATEGORY_PAGE.to_string()).unwrap();
    match last {
        LastParse::Category(title) => assert_eq!(title, "Rust 项目"),
        other => panic!("unexpected {:?}", other),
    }
    assert_eq!(projects.len(), 2);
    assert_eq!(projects[0].name, "alpha");
    assert_eq!(projects[0].url, "https://github.com/a/alpha");
    assert_eq!(projects[0].volume, 70);
    assert_eq!(projects[0].category, "Rust");
    assert_eq!(projects[0].star, "1.5k");
    assert_eq!(projects[0].watch, "30");
    assert_eq!(projects[0].fork, "200");
    assert_eq!(projects[0].desc, "A fast thing");
    assert_eq!(projects[1].name, "beta");
    assert_eq!(projects[1].volume, 71);
    assert_eq!(projects[1].category, "Rust");
    assert_eq!(projects[1].desc, "Another thing");
}

#[test]
fn category_parser_reports_a_paragraph_without_line_break() {
    let page = r#"<h1>C 项目</h1>
<h2 class="content-subhead"><a class="project-url" href="u">n</a></h2>
<p><i class="fa">第 1 期</i><i class="fa">Star 1</i><i class="fa">Watch 1</i><i class="fa">Fork 1</i>text</p>"#;
    assert_eq!(
        CategoryParser.parse(page.to_string()).err(),
        Some(Error::ParseContractViolation)
    );
}

#[test]
fn parsing_twice_gives_the_same_projects() {
    for (mode, page) in [
        (SearchMode::Normal, SEARCH_PAGE),
        (SearchMode::Volume, VOLUME_PAGE),
        (SearchMode::Category, CATEGORY_PAGE),
    ] {
        let (first, _) = parse_page(mode, page.to_string()).unwrap();
        let (second, _) = parse_page(mode, page.to_string()).unwrap();
        assert_eq!(format!("{:?}", first), format!("{:?}", second));
        assert!(!first.is_empty());
    }
}

#[test]
fn parse_page_picks_the_reader_of_the_mode() {
    let (projects, last) = parse_page(SearchMode::Normal, SEARCH_PAGE.to_string()).unwrap();
    assert_eq!(projects.len(), 2);
    assert!(matches!(last, LastParse::Search));
    let (projects, last) = parse_page(SearchMode::Volume, VOLUME_PAGE.to_string()).unwrap();
    assert_eq!(projects.len(), 3);
    assert!(matches!(last, LastParse::Volume(_)));
    let (projects, last) = parse_page(SearchMode::Category, CATEGORY_PAGE.to_string()).unwrap();
    assert_eq!(projects.len(), 2);
    assert!(matches!(last, LastParse::Category(_)));
    // a page read with the reader of another mode holds nothing for it
    let (projects, _) = parse_page(SearchMode::Volume, SEARCH_PAGE.to_string()).unwrap();
    assert!(projects.is_empty());
}

const HOME_PAGE: &str = r#"<html><body><div class="l-content">
<span id="repo-stars-counter-unstar">55.2k</span>
<div class="pricing-tables pure-g">
<div><div><div><span> 80 期 </span></div></div></div>
<div><div><div><span>2700 个项目</span></div></div></div>
</div></div></body></html>"#;

#[test]
fn parse_hg_info_reads_the_counters() {
    let info = parse_hg_info(HOME_PAGE.to_string()).unwrap();
    assert_eq!(info.max_volume, 80);
    assert_eq!(info.project_count, 2700);
    assert_eq!(info.star, "55.2k");
}

#[test]
fn parse_hg_info_reports_a_page_without_counters() {
    assert_eq!(
        parse_hg_info("<html><body></body></html>".to_string()).err(),
        Some(Error::ParseContractViolation)
    );
    let page = HOME_PAGE.replace(" 80 期 ", "many");
    assert_eq!(parse_hg_info(page).err(), Some(Error::ParseContractViolation));
}

#[test]
fn parse_hg_star_reads_the_star_counter() {
    assert_eq!(parse_hg_star(HOME_PAGE.to_string()), Ok("55.2k".to_string()));
    assert_eq!(parse_hg_star("<p>none</p>".to_string()), Ok("".to_string()));
}

#[test]
fn first_number_reads_the_leading_word() {
    assert_eq!(first_number(" 80 期 "), Some(80));
    assert_eq!(first_number("2700"), Some(2700));
    assert_eq!(first_number("期 80"), None);
    assert_eq!(first_number(""), None);
}

#[test]
fn a_page_above_the_limit_is_not_read() {
    let mut page = String::from(SEARCH_PAGE);
    page.push_str(&" ".repeat(0x100_0000));
    assert_eq!(
        NormalParser.parse(page.clone()).err(),
        Some(Error::ParseContractViolation)
    );
    assert_eq!(
        VolumeParser.parse(page.clone()).err(),
        Some(Error::ParseContractViolation)
    );
    assert_eq!(
        CategoryParser.parse(page.clone()).err(),
        Some(Error::ParseContractViolation)
    );
    assert_eq!(parse_hg_info(page.clone()).err(), Some(Error::ParseContractViolation));
    assert_eq!(parse_hg_star(page).err(), Some(Error::ParseContractViolation));
}

#[test]
fn a_long_page_below_the_limit_is_read() {
    let mut page = String::from(SEARCH_PAGE);
    page.push_str(&" ".repeat(200_000));
    let (projects, _) = NormalParser.parse(page).unwrap();
    assert_eq!(projects.len(), 2);
}

#[test]
fn a_paragraph_of_too_many_nodes_is_reported() {
    let crowded = "<br>".repeat(6000);
    let page = CATEGORY_PAGE.replace("<br>Another thing", &format!("<br>Another thing{}", crowded));
    assert_eq!(
        CategoryParser.parse(page).err(),
        Some(Error::ParseContractViolation)
    );
    // a paragraph with a few hundred nodes on a short page is read
    let busy = "<br>".repeat(300);
    let page = CATEGORY_PAGE.replace("<br>Another thing", &format!("<br>Another thing{}", busy));
    let (projects, _) = CategoryParser.parse(page).unwrap();
    assert_eq!(projects[1].desc, "Another thing");
}

#[test]
fn texts_of_several_nodes_are_joined_in_order() {
    let page = r#"<h1>Rust</h1><div><h1> 项目</h1></div>
<h2 class="content-subhead"><a class="project-url" href="u">al</a><a class="project-url" href="v">pha</a></h2>
<p><i class="fa">第 70 期</i><i class="fa">Star 1</i><i class="fa">Watch 2</i><i class="fa">Fork 3</i><br>text</p>"#;
    let (projects, last) = CategoryParser.parse(page.to_string()).unwrap();
    match last {
        LastParse::Category(title) => assert_eq!(title, "Rust 项目"),
        other => panic!("unexpected {:?}", other),
    }
    assert_eq!(projects[0].name, "alpha");
    assert_eq!(projects[0].url, "u");
    assert_eq!(projects[0].category, "Rust");
}

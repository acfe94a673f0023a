use gif_maker::frame::Frame;
use gif_maker::project::Project;
use gif_maker::table::text_fits_a_cell;
use prettytable::format::consts::FORMAT_NO_BORDER_LINE_SEPARATOR;
use prettytable::{Cell, Row, Table};

fn frame(name: &str, path: &str, duration: u32) -> Frame {
    Frame { name: name.to_string(), path: path.to_string(), duration }
}

#[test]
fn table_of_two_frames() {
    let project = Project::from(vec![frame("a", "a.png", 100), frame("b", "b.png", 200)]);
    let expected = " Name | Duration | Path \n a    | 100      | a.png \n b    | 200      | b.png \n";
    assert_eq!(project.to_table_text(), expected);
}

#[test]
fn table_of_empty_project_has_only_titles() {
    assert_eq!(Project::new().to_table_text(), " Name | Duration | Path \n");
}

#[test]
fn table_columns_grow_with_their_widest_cell() {
    let project = Project::from(vec![
        frame("a-long-frame-name", "/some/dir/image.png", 4294967295),
        frame("b", "x", 0),
    ]);
    let expected = " Name              | Duration   | Path \n \
                    a-long-frame-name | 4294967295 | /some/dir/image.png \n \
                    b                 | 0          | x \n";
    assert_eq!(project.to_table_text(), expected);
}

#[test]
fn table_rows_follow_playback_order() {
    let mut project = Project::from(vec![frame("a", "a.png", 1), frame("b", "b.png", 2)]);
    assert!(project.move_frame(1, 0));
    assert_eq!(project.to_table_text(), " Name | Duration | Path \n b    | 2        | b.png \n a    | 1        | a.png \n");
}

#[test]
fn table_text_is_what_the_table_crate_writes_for_the_same_rows() {
    let project = Project::from(vec![frame("intro", "intro.png", 1500), frame("end", "end.png", 20)]);
    let mut table = Table::new();
    table.add_row(Row::new(vec![Cell::new("Name"), Cell::new("Duration"), Cell::new("Path")]));
    table.add_row(Row::new(vec![Cell::new("intro"), Cell::new("1500"), Cell::new("intro.png")]));
    table.add_row(Row::new(vec![Cell::new("end"), Cell::new("20"), Cell::new("end.png")]));
    table.set_format(*FORMAT_NO_BORDER_LINE_SEPARATOR);
    assert_eq!(project.to_table_text(), table.to_string());
}

fn by_the_table_crate(rows: &[[&str; 3]]) -> String {
    let mut table = Table::new();
    table.add_row(Row::new(vec![Cell::new("Name"), Cell::new("Duration"), Cell::new("Path")]));
    for row in rows {
        table.add_row(Row::new(row.iter().map(|text| Cell::new(text)).collect()));
    }
    table.set_format(*FORMAT_NO_BORDER_LINE_SEPARATOR);
    table.to_string()
}

#[test]
fn text_fits_a_cell_without_escape_and_line_feed() {
    assert!(text_fits_a_cell(""));
    assert!(text_fits_a_cell("intro"));
    assert!(text_fits_a_cell("two words\tand a tab"));
    assert!(text_fits_a_cell("carriage\rreturn"));
    assert!(text_fits_a_cell("\u{644}\u{627}\u{644}\u{627}"));
    assert!(text_fits_a_cell("[m"));
}

#[test]
fn text_with_line_feed_or_escape_does_not_fit_a_cell() {
    assert!(!text_fits_a_cell("\n"));
    assert!(!text_fits_a_cell("a\n"));
    assert!(!text_fits_a_cell("a\nb"));
    assert!(!text_fits_a_cell("a\r\nb"));
    assert!(!text_fits_a_cell("\u{1b}"));
    assert!(!text_fits_a_cell("red \u{1b}[31m text"));
    assert!(!text_fits_a_cell("last is escape\u{1b}"));
}

#[test]
fn project_fits_a_table_when_every_name_and_path_does() {
    assert!(Project::new().fits_a_table());
    assert!(Project::from(vec![frame("a", "a.png", 1), frame("b", "b.png", 2)]).fits_a_table());
    assert!(!Project::from(vec![frame("a", "a.png", 1), frame("b\n", "b.png", 2)]).fits_a_table());
    assert!(!Project::from(vec![frame("a", "a\u{1b}.png", 1), frame("b", "b.png", 2)]).fits_a_table());
}

#[test]
fn try_to_table_text_gives_the_table_for_plain_texts() {
    let project = Project::from(vec![frame("a", "a.png", 100), frame("b", "b.png", 200)]);
    assert_eq!(project.try_to_table_text(), Some(project.to_table_text()));
    assert_eq!(
        project.try_to_table_text().unwrap(),
        " Name | Duration | Path \n a    | 100      | a.png \n b    | 200      | b.png \n"
    );
    assert_eq!(Project::new().try_to_table_text().unwrap(), " Name | Duration | Path \n");
}

#[test]
fn try_to_table_text_refuses_a_line_feed_in_a_name() {
    let project = Project::from(vec![frame("a", "a.png", 100), frame("b\n", "b.png", 200)]);
    assert_eq!(project.try_to_table_text(), None);
    let project = Project::from(vec![frame("two\nlines", "a.png", 100)]);
    assert_eq!(project.try_to_table_text(), None);
}

#[test]
fn try_to_table_text_refuses_an_escape_character_in_a_path() {
    let project = Project::from(vec![frame("a", "\u{1b}[31ma.png", 100)]);
    assert_eq!(project.try_to_table_text(), None);
}

#[test]
fn try_to_table_text_refuses_the_text_on_which_measuring_fails() {
    let project = Project::from(vec![frame("\u{1b}[\u{644}\u{627}\u{644}\u{627}", "a.png", 1)]);
    assert!(!project.fits_a_table());
    assert_eq!(project.try_to_table_text(), None);
}

#[test]
fn table_with_control_characters_is_what_the_table_crate_writes() {
    let rows = [
        ["tab\tin name", "7", "bell\u{7}.png"],
        ["carriage\rreturn", "8", "nul\u{0}.png"],
        ["", "9", ""],
    ];
    let project = Project::from(vec![
        frame(rows[0][0], rows[0][2], 7),
        frame(rows[1][0], rows[1][2], 8),
        frame(rows[2][0], rows[2][2], 9),
    ]);
    assert_eq!(project.try_to_table_text(), Some(by_the_table_crate(&rows)));
}

#[test]
fn table_with_wide_and_joining_characters_is_what_the_table_crate_writes() {
    let rows = [
        ["\u{644}\u{627}\u{644}\u{627}", "1", "\u{65e5}\u{672c}\u{8a9e}.png"],
        ["e\u{301}", "2", "[m bracket"],
    ];
    let project = Project::from(vec![
        frame(rows[0][0], rows[0][2], 1),
        frame(rows[1][0], rows[1][2], 2),
    ]);
    assert_eq!(project.try_to_table_text(), Some(by_the_table_crate(&rows)));
}

#[test]
fn table_text_is_not_in_the_bordered_default_format() {
    let text = Project::from(vec![frame("a", "a.png", 100)]).to_table_text();
    assert!(!text.contains('+'));
    assert!(!text.contains('-'));
    assert_eq!(text.lines().count(), 2);
}

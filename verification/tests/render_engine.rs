use chat_console::message::{Content, Message};
use chat_console::render::{
    compose, cursor_position, history_scroll, render, render_history, role_label, Area, Frame,
    Panel, Position, HELP_HEIGHT, HISTORY_MIN_HEIGHT, INPUT_HEIGHT,
};
use chat_console::message::Role;

const LEGEND: &str = "Ctrl+S:send|Ctrl+Q:quit|Ctrl+N:clear history";

fn user(text: &str) -> Message {
    Message::USER(Content::Text(text.to_string()))
}

fn assistant(text: &str) -> Message {
    Message::SYSTEM(Content::Text(text.to_string()))
}

fn area(x: u16, y: u16, width: u16, height: u16) -> Area {
    Area { x, y, width, height }
}

#[test]
fn layout_heights_are_those_of_the_console() {
    assert_eq!(HISTORY_MIN_HEIGHT, 1);
    assert_eq!(INPUT_HEIGHT, 3);
    assert_eq!(HELP_HEIGHT, 1);
}

#[test]
fn role_labels() {
    assert_eq!(role_label(Role::User), "You");
    assert_eq!(role_label(Role::Assistant), "Bot");
}

#[test]
fn history_of_nothing_is_empty() {
    assert_eq!(render_history(&[]), "");
}

#[test]
fn history_has_one_line_per_turn_in_order() {
    let history = [user("a"), assistant("b"), user("c d")];
    assert_eq!(render_history(&history), "You: a\nBot: b\nYou: c d\n");
}

#[test]
fn history_shows_empty_and_image_turns() {
    let history = [user(""), Message::SYSTEM(Content::ImageUrl)];
    assert_eq!(render_history(&history), "You: \nBot: An image\n");
}

#[test]
fn scroll_is_zero_while_everything_fits() {
    assert_eq!(history_scroll("", 10), 0);
    assert_eq!(history_scroll("You: a\n", 3), 0);
    assert_eq!(history_scroll("You: a\nBot: b\nYou: c\n", 5), 0);
}

#[test]
fn scroll_skips_the_lines_that_do_not_fit() {
    assert_eq!(history_scroll("You: a\nBot: b\nYou: c\nBot: d\nYou: e\n", 5), 2);
    assert_eq!(history_scroll("You: a\nBot: b\nYou: c\n", 3), 2);
    assert_eq!(history_scroll("You: a\nBot: b\n", 4), 0);
    assert_eq!(history_scroll("You: a\nBot: b\nYou: c\n", 4), 1);
}

#[test]
fn scroll_counts_line_breaks_inside_a_turn() {
    let text = render_history(&[user("q"), assistant("line one\nline two\nline three")]);
    assert_eq!(text, "You: q\nBot: line one\nline two\nline three\n");
    assert_eq!(history_scroll(&text, 4), 2);
    assert_eq!(history_scroll(&text, 6), 0);
}

#[test]
fn scroll_without_rows_hides_every_line() {
    assert_eq!(history_scroll("a\nb\nc\n", 2), 3);
    assert_eq!(history_scroll("a\nb\nc\n", 1), 3);
    assert_eq!(history_scroll("a\nb\nc\n", 0), 3);
}

#[test]
fn scroll_stops_at_the_largest_offset() {
    let text = "\n".repeat(70_000);
    assert_eq!(history_scroll(&text, 2), u16::MAX);
    assert_eq!(history_scroll(&text, 12), u16::MAX);
    let text = "\n".repeat(65_540);
    assert_eq!(history_scroll(&text, 7), 65_535);
    assert_eq!(history_scroll(&text, 8), 65_534);
}

#[test]
fn cursor_stands_behind_the_last_character() {
    assert_eq!(cursor_position(area(0, 20, 80, 3), ""), Some(Position { x: 1, y: 21 }));
    assert_eq!(cursor_position(area(0, 20, 80, 3), "hello"), Some(Position { x: 6, y: 21 }));
    assert_eq!(cursor_position(area(4, 7, 30, 3), "ab"), Some(Position { x: 7, y: 8 }));
}

#[test]
fn cursor_counts_characters() {
    assert_eq!(cursor_position(area(0, 0, 80, 3), "héllo"), Some(Position { x: 6, y: 1 }));
}

#[test]
fn cursor_stops_at_the_right_edge_of_the_region() {
    let region = area(0, 20, 80, 3);
    assert_eq!(cursor_position(region, &"x".repeat(77)), Some(Position { x: 78, y: 21 }));
    assert_eq!(cursor_position(region, &"x".repeat(78)), Some(Position { x: 79, y: 21 }));
    assert_eq!(cursor_position(region, &"x".repeat(79)), Some(Position { x: 79, y: 21 }));
    assert_eq!(cursor_position(region, &"x".repeat(100)), Some(Position { x: 79, y: 21 }));
    assert_eq!(cursor_position(region, &"x".repeat(70_000)), Some(Position { x: 79, y: 21 }));
    assert_eq!(cursor_position(area(4, 7, 6, 3), "abcdefgh"), Some(Position { x: 9, y: 8 }));
}

#[test]
fn cursor_stays_in_a_narrow_or_flat_region() {
    assert_eq!(cursor_position(area(3, 5, 1, 3), "abc"), Some(Position { x: 3, y: 6 }));
    assert_eq!(cursor_position(area(3, 5, 2, 3), "abc"), Some(Position { x: 4, y: 6 }));
    assert_eq!(cursor_position(area(3, 5, 2, 3), ""), Some(Position { x: 4, y: 6 }));
    assert_eq!(cursor_position(area(3, 5, 10, 1), "ab"), Some(Position { x: 6, y: 5 }));
    assert_eq!(cursor_position(area(3, 5, 10, 2), "ab"), Some(Position { x: 6, y: 6 }));
}

#[test]
fn cursor_has_no_place_in_a_region_without_cells() {
    assert_eq!(cursor_position(area(0, 0, 0, 3), "abc"), None);
    assert_eq!(cursor_position(area(0, 0, 80, 0), "abc"), None);
    assert_eq!(cursor_position(area(7, 9, 0, 0), ""), None);
}

#[test]
fn cursor_stops_at_the_last_cell_of_the_terminal() {
    assert_eq!(cursor_position(area(u16::MAX, 0, 1, 3), ""), Some(Position { x: u16::MAX, y: 1 }));
    assert_eq!(cursor_position(area(0, u16::MAX, 1, 3), ""), Some(Position { x: 0, y: u16::MAX }));
    assert_eq!(cursor_position(area(65_530, 0, 5, 3), "abc"), Some(Position { x: 65_534, y: 1 }));
    assert_eq!(cursor_position(area(65_530, 0, 5, 3), "abcde"), Some(Position { x: 65_534, y: 1 }));
    assert_eq!(cursor_position(area(65_530, 0, 50, 3), "abcdefgh"), Some(Position { x: u16::MAX, y: 1 }));
}

#[test]
fn cursor_is_always_a_cell_of_the_region() {
    let edges = [0u16, 1, 2, 3, 80, 65_534, u16::MAX];
    for &x in edges.iter() {
        for &y in edges.iter() {
            for &width in edges.iter() {
                for &height in edges.iter() {
                    for typed in [0usize, 1, 2, 79, 80, 70_000] {
                        let region = area(x, y, width, height);
                        let cursor = cursor_position(region, &"x".repeat(typed));
                        assert_eq!(cursor.is_some(), width > 0 && height > 0);
                        if let Some(cell) = cursor {
                            assert!(x <= cell.x && (cell.x as u32) < x as u32 + width as u32);
                            assert!(y <= cell.y && (cell.y as u32) < y as u32 + height as u32);
                        }
                    }
                }
            }
        }
    }
}

#[test]
fn compose_builds_the_three_regions() {
    let history = [user("a"), assistant("b")];
    let frame = compose(area(0, 0, 80, 20), area(0, 20, 80, 3), area(0, 23, 80, 1), "draft", &history);
    let expected = Frame {
        history: Panel {
            area: area(0, 0, 80, 20),
            title: "History".to_string(),
            bordered: true,
            wrap: false,
            scroll: 0,
            text: "You: a\nBot: b\n".to_string(),
        },
        input: Panel {
            area: area(0, 20, 80, 3),
            title: "Input".to_string(),
            bordered: true,
            wrap: true,
            scroll: 0,
            text: "draft".to_string(),
        },
        help: Panel {
            area: area(0, 23, 80, 1),
            title: String::new(),
            bordered: false,
            wrap: false,
            scroll: 0,
            text: LEGEND.to_string(),
        },
        cursor: Some(Position { x: 6, y: 21 }),
    };
    assert_eq!(frame, expected);
}

#[test]
fn compose_scrolls_a_full_history() {
    let history = [user("1"), assistant("2"), user("3"), assistant("4"), user("5"), assistant("6")];
    let frame = compose(area(0, 0, 40, 6), area(0, 6, 40, 3), area(0, 9, 40, 1), "", &history);
    assert_eq!(frame.history.scroll, 2);
    assert_eq!(frame.history.text, "You: 1\nBot: 2\nYou: 3\nBot: 4\nYou: 5\nBot: 6\n");
    assert_eq!(frame.cursor, Some(Position { x: 1, y: 7 }));
}

#[test]
fn render_splits_the_screen_into_three_rows() {
    let history = [user("ping"), assistant("pong")];
    let frame = render(area(0, 0, 80, 24), "hi", &history);
    assert_eq!(frame.history.area, area(0, 0, 80, 20));
    assert_eq!(frame.input.area, area(0, 20, 80, 3));
    assert_eq!(frame.help.area, area(0, 23, 80, 1));
    assert_eq!(frame.history.text, "You: ping\nBot: pong\n");
    assert_eq!(frame.history.title, "History");
    assert_eq!(frame.input.text, "hi");
    assert_eq!(frame.input.title, "Input");
    assert!(frame.input.wrap);
    assert_eq!(frame.help.text, LEGEND);
    assert!(!frame.help.bordered);
    assert_eq!(frame.cursor, Some(Position { x: 3, y: 21 }));
}

#[test]
fn render_keeps_the_offset_of_the_screen() {
    let frame = render(area(5, 2, 40, 10), "", &[]);
    assert_eq!(frame.history.area, area(5, 2, 40, 6));
    assert_eq!(frame.input.area, area(5, 8, 40, 3));
    assert_eq!(frame.help.area, area(5, 11, 40, 1));
    assert_eq!(frame.cursor, Some(Position { x: 6, y: 9 }));
}

#[test]
fn render_is_the_frame_composed_for_its_rows() {
    let history = [user("a"), assistant("b\nc"), user("d")];
    let frame = render(area(0, 0, 30, 8), "typed", &history);
    let again = compose(frame.history.area, frame.input.area, frame.help.area, "typed", &history);
    assert_eq!(frame, again);
    assert_eq!(frame.history.area.height, 4);
    assert_eq!(frame.history.scroll, 2);
}

#[test]
fn render_twice_gives_the_same_frame() {
    let history = [user("ping"), assistant("pong"), user("more")];
    let first = render(area(0, 0, 100, 30), "buffer", &history);
    let second = render(area(0, 0, 100, 30), "buffer", &history);
    assert_eq!(first, second);
}

#[test]
fn render_on_a_tiny_screen_still_has_three_regions() {
    for height in 0..6u16 {
        let frame = render(area(0, 0, 10, height), "x", &[user("a")]);
        for panel in [&frame.history, &frame.input, &frame.help] {
            assert_eq!(panel.area.x, 0);
            assert_eq!(panel.area.width, 10);
        }
        assert_eq!(frame.history.text, "You: a\n");
        assert_eq!(frame.input.text, "x");
    }
}

#[test]
fn render_takes_any_screen() {
    let edges = [0u16, 1, 4, 5, 6, 100, 32_767, 65_534, u16::MAX];
    for &y in edges.iter() {
        for &height in edges.iter() {
            for &(x, width) in [(0u16, 0u16), (3, 80), (u16::MAX, u16::MAX)].iter() {
                let screen = area(x, y, width, height);
                let frame = render(screen, "typed", &[user("a"), assistant("b")]);
                for panel in [&frame.history, &frame.input, &frame.help] {
                    assert_eq!(panel.area.x, x);
                    assert_eq!(panel.area.width, width);
                    assert!(y <= panel.area.y);
                    assert!(
                        panel.area.y as u32 + panel.area.height as u32 <= y as u32 + height as u32
                    );
                }
                if let Some(cell) = frame.cursor {
                    let region = frame.input.area;
                    assert!(region.x <= cell.x);
                    assert!((cell.x as u32) < region.x as u32 + region.width as u32);
                    assert!(region.y <= cell.y);
                    assert!((cell.y as u32) < region.y as u32 + region.height as u32);
                }
                let again = compose(
                    frame.history.area,
                    frame.input.area,
                    frame.help.area,
                    "typed",
                    &[user("a"), assistant("b")],
                );
                assert_eq!(frame, again);
            }
        }
    }
}

#[test]
fn render_keeps_the_cursor_in_the_input_region() {
    let long = "x".repeat(100);
    let frame = render(area(0, 0, 80, 24), &long, &[]);
    assert_eq!(frame.input.area, area(0, 20, 80, 3));
    assert_eq!(frame.input.text, long);
    assert_eq!(frame.cursor, Some(Position { x: 79, y: 21 }));
    let longer = "y".repeat(66_000);
    let frame = render(area(0, 0, 80, 24), &longer, &[]);
    assert_eq!(frame.cursor, Some(Position { x: 79, y: 21 }));
}

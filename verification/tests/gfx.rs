use plinth::gfx::{DrawCommand, DrawList};

type Rect = [f32; 4];
type Color = [f32; 4];
type RoundRect = (Rect, Color);

const WHITE: Color = [1.0, 1.0, 1.0, 1.0];
const BLACK: Color = [0.0, 0.0, 0.0, 1.0];
const ZERO: Rect = [0.0, 0.0, 0.0, 0.0];

#[test]
fn draw_list() {
    let mut list: DrawList<RoundRect, Rect, Color> = DrawList::new();

    list.begin([0.0, 0.0, 100.0, 100.0]);
    list.clear(WHITE);
    list.draw_rect((ZERO, BLACK));
    list.draw_rect((ZERO, BLACK));
    list.end();

    assert_eq!(list.commands.len(), 5);
    assert_eq!(list.rects.len(), 2);
    assert_eq!(list.areas.len(), 1);
    assert_eq!(list.clears.len(), 1);

    assert_eq!(list.commands[0], (DrawCommand::Begin, 0));
    assert_eq!(list.commands[1], (DrawCommand::Clip, 0));
    assert_eq!(list.commands[2], (DrawCommand::Clear, 0));
    assert_eq!(list.commands[3], (DrawCommand::DrawRects, 2));
    assert_eq!(list.commands[4], (DrawCommand::End, 0));
}

#[test]
fn end_without_rects_adds_no_draw() {
    let mut list: DrawList<RoundRect, Rect, Color> = DrawList::new();
    list.begin(ZERO);
    list.end();
    assert_eq!(list.commands, vec![(DrawCommand::Begin, 0), (DrawCommand::Clip, 0), (DrawCommand::End, 0)]);
}

#[test]
fn reset_empties_the_list() {
    let mut list: DrawList<RoundRect, Rect, Color> = DrawList::new();
    list.begin(ZERO);
    list.clear(BLACK);
    list.clear(WHITE);
    list.draw_rect((ZERO, WHITE));
    list.end();
    assert_eq!(list.commands[3], (DrawCommand::Clear, 1));
    list.reset();
    assert!(list.commands.is_empty() && list.rects.is_empty());
    assert!(list.areas.is_empty() && list.clears.is_empty());
    list.begin(ZERO);
    list.end();
    assert_eq!(list.commands.len(), 3);
}

use abalone_session::board::{
    cells_with, committed_board, differences, marbles_lost, rotate_board, Board, BELGIAN_DAISY,
    BLACK, BOARD_SIZE, EMPTY, EMPTY_BOARD, OFF_BOARD, WHITE,
};
use abalone_session::coloring::{AbaloneColors, CircleStyle, Rgba};
use abalone_session::labels::{AbaloneLabels, Verdict};
use abalone_session::positions::{deadzone_marks, grid_spot, GridSpot, SlotMark};
use abalone_session::screen::{human_may_act, StartingPositions};
use abalone_session::board::Cell;
use abalone_session::selection::Selection;

fn sorted(mut cells: Vec<Cell>) -> Vec<(usize, usize)> {
    let mut out: Vec<(usize, usize)> = cells.drain(..).map(|c| (c.x, c.y)).collect();
    out.sort();
    out
}

#[test]
fn the_standard_palette_has_the_documented_colours() {
    let c = AbaloneColors::default();
    assert_eq!(c.color_empty_fill, Rgba { r: 220, g: 220, b: 220, a: 255 });
    assert_eq!(c.color_empty_stroke, Rgba { r: 255, g: 255, b: 255, a: 255 });
    assert_eq!(c.color_black_fill, Rgba { r: 0, g: 0, b: 0, a: 0 });
    assert_eq!(c.color_black_stroke, Rgba { r: 117, g: 162, b: 216, a: 255 });
    assert_eq!(c.move_black_stroke, Rgba { r: 158, g: 190, b: 228, a: 255 });
    assert_eq!(c.color_white_fill, Rgba { r: 0, g: 0, b: 0, a: 0 });
    assert_eq!(c.color_white_stroke, Rgba { r: 247, g: 201, b: 11, a: 255 });
    assert_eq!(c.move_white_stroke, Rgba { r: 249, g: 217, b: 84, a: 255 });
    assert_eq!(c.text_color, Rgba { r: 255, g: 255, b: 255, a: 255 });
    assert_eq!(Rgba::from_rgb(1, 2, 3), Rgba { r: 1, g: 2, b: 3, a: 255 });
}

#[test]
fn the_status_line_takes_the_colour_of_whom_it_names() {
    let base = AbaloneColors::default();
    for (verdict, expected) in [
        (Verdict::BlackWon, base.color_black_stroke),
        (Verdict::Draw, Rgba { r: 255, g: 255, b: 255, a: 255 }),
        (Verdict::WhiteWon, base.color_white_stroke),
        (Verdict::BlackToMove, base.color_black_stroke),
        (Verdict::WhiteToMove, base.color_white_stroke),
    ] {
        let mut c = base;
        c.set_text_color(verdict);
        assert_eq!(c.text_color, expected);
        assert_eq!(AbaloneColors { text_color: base.text_color, ..c }, base);
    }
}

#[test]
fn rings_follow_the_side_they_belong_to() {
    let c = AbaloneColors::default();
    assert_eq!(
        c.empty_field(),
        CircleStyle { radius: 10, width: 5, fill: c.color_empty_fill, stroke: c.color_empty_stroke }
    );
    assert_eq!(
        c.selection(true),
        CircleStyle { radius: 32, width: 2, fill: c.color_black_fill, stroke: c.color_black_stroke }
    );
    assert_eq!(
        c.selection(false),
        CircleStyle { radius: 32, width: 2, fill: c.color_white_fill, stroke: c.color_white_stroke }
    );
    assert_eq!(
        c.moved(true),
        CircleStyle { radius: 32, width: 2, fill: c.color_black_fill, stroke: c.move_black_stroke }
    );
    assert_eq!(
        c.moved(false),
        CircleStyle { radius: 32, width: 2, fill: c.color_white_fill, stroke: c.move_white_stroke }
    );
    // A lost black marble is ringed in white's colours, and the other way round.
    assert_eq!(c.fresh_loss(true), c.moved(false));
    assert_eq!(c.fresh_loss(false), c.moved(true));
}

#[test]
fn verdicts_follow_the_result_code() {
    assert_eq!(Verdict::from_result(-1, true), Verdict::BlackWon);
    assert_eq!(Verdict::from_result(-1, false), Verdict::BlackWon);
    assert_eq!(Verdict::from_result(0, true), Verdict::Draw);
    assert_eq!(Verdict::from_result(1, false), Verdict::WhiteWon);
    assert_eq!(Verdict::from_result(10, true), Verdict::BlackToMove);
    assert_eq!(Verdict::from_result(10, false), Verdict::WhiteToMove);
    assert_eq!(Verdict::from_result(2, false), Verdict::WhiteToMove);
    assert_eq!(Verdict::from_result(-2, true), Verdict::BlackToMove);
}

#[test]
fn the_status_line_names_the_players() {
    let mut l = AbaloneLabels::default();
    assert_eq!(l.game_message, "");
    assert_eq!(l.black_name, "Blue Player");
    assert_eq!(l.white_name, "Yellow Player");
    l.announce(Verdict::BlackWon);
    assert_eq!(l.game_message, "'Blue Player' won the game!");
    l.announce(Verdict::WhiteWon);
    assert_eq!(l.game_message, "'Yellow Player' won the game!");
    l.announce(Verdict::Draw);
    assert_eq!(l.game_message, "The game ended in a draw");
    l.announce(Verdict::BlackToMove);
    assert_eq!(l.game_message, "'Blue Player' has to make a move");
    l.white_name = "Ada".to_string();
    l.announce(Verdict::WhiteToMove);
    assert_eq!(l.game_message, "'Ada' has to make a move");
    l.prompt_for_start();
    assert_eq!(l.game_message, "Choose starting position");
    assert_eq!(l.white_name, "Ada");
}

#[test]
fn grid_spots_form_the_hexagon() {
    // First row: five fields, starting at column 5, shifted to the middle.
    assert_eq!(grid_spot(1, 5), Some(GridSpot { half_steps: 2, rows_down: 1 }));
    assert_eq!(grid_spot(1, 9), Some(GridSpot { half_steps: 10, rows_down: 1 }));
    // Middle row: nine fields, starting at column 1.
    assert_eq!(grid_spot(5, 1), Some(GridSpot { half_steps: -2, rows_down: 5 }));
    assert_eq!(grid_spot(5, 9), Some(GridSpot { half_steps: 14, rows_down: 5 }));
    // Last row: five fields, starting at column 1.
    assert_eq!(grid_spot(9, 1), Some(GridSpot { half_steps: 2, rows_down: 9 }));
    assert_eq!(grid_spot(9, 5), Some(GridSpot { half_steps: 10, rows_down: 9 }));
    // Row 6 has eight fields.
    assert_eq!(grid_spot(6, 1), Some(GridSpot { half_steps: -1, rows_down: 6 }));
    assert_eq!(grid_spot(6, 9), Some(GridSpot { half_steps: 15, rows_down: 6 }));
    assert_eq!(grid_spot(2, 12), Some(GridSpot { half_steps: 17, rows_down: 2 }));
}

#[test]
fn coordinates_off_the_grid_have_no_spot() {
    assert_eq!(grid_spot(0, 5), None);
    assert_eq!(grid_spot(10, 1), None);
    assert_eq!(grid_spot(6, 0), None);
    assert_eq!(grid_spot(6, 10), None);
    assert_eq!(grid_spot(1, 4), None);
    assert_eq!(grid_spot(1, 14), None);
    assert_eq!(grid_spot(1, 13), Some(GridSpot { half_steps: 18, rows_down: 1 }));
    assert_eq!(grid_spot(usize::MAX, usize::MAX), None);
    assert_eq!(grid_spot(3, usize::MAX), None);
}

#[test]
fn dead_zones_fill_from_the_first_slot() {
    let (dead, free, fresh) = (SlotMark::Dead, SlotMark::Free, SlotMark::FreshlyDead);
    assert_eq!(deadzone_marks(6, 0, 0), vec![free; 6]);
    assert_eq!(deadzone_marks(6, 1, 0), vec![fresh, free, free, free, free, free]);
    assert_eq!(deadzone_marks(6, 3, 2), vec![dead, dead, fresh, free, free, free]);
    // Nothing new was lost: nothing is highlighted.
    assert_eq!(deadzone_marks(6, 3, 3), vec![dead, dead, dead, free, free, free]);
    assert_eq!(deadzone_marks(6, 6, 5), vec![dead, dead, dead, dead, dead, fresh]);
    assert_eq!(deadzone_marks(6, 9, 7), vec![dead; 6]);
    assert_eq!(deadzone_marks(0, 2, 1), vec![]);
    // Two lost at once: the first of them is highlighted.
    assert_eq!(deadzone_marks(4, 3, 1), vec![dead, fresh, dead, free]);
}

#[test]
fn only_a_human_in_a_running_game_may_act() {
    assert!(human_may_act(true, false, true, false));
    assert!(!human_may_act(true, true, false, false));
    assert!(human_may_act(false, true, false, false));
    assert!(!human_may_act(false, false, true, false));
    assert!(!human_may_act(true, false, false, true));
    assert!(!human_may_act(false, false, false, true));
    assert!(!human_may_act(true, true, true, true));
}

#[test]
fn starting_positions_go_round() {
    let mut s = StartingPositions::new(vec![BELGIAN_DAISY, EMPTY_BOARD, BELGIAN_DAISY]);
    assert_eq!(s.len(), 3);
    assert_eq!(s.selected_index(), 0);
    assert_eq!(s.current(), BELGIAN_DAISY);
    s.previous();
    assert_eq!(s.selected_index(), 2);
    s.next();
    assert_eq!(s.selected_index(), 0);
    s.next();
    assert_eq!(s.selected_index(), 1);
    assert_eq!(s.current(), EMPTY_BOARD);
    s.next();
    s.next();
    assert_eq!(s.selected_index(), 0);
}

#[test]
fn an_empty_offer_becomes_the_usual_position() {
    let mut s = StartingPositions::new(Vec::new());
    assert_eq!(s.len(), 1);
    assert_eq!(s.current(), BELGIAN_DAISY);
    s.next();
    assert_eq!(s.selected_index(), 0);
    s.previous();
    assert_eq!(s.selected_index(), 0);
    assert_eq!(s.current(), BELGIAN_DAISY);
}

#[test]
fn rotation_turns_the_board_and_trades_colours() {
    let turned = rotate_board(BELGIAN_DAISY);
    let expected: Board = [
        [3, 3, 3, 3, 3, 3, 3, 3, 3, 3, 3],
        [3, 3, 3, 3, 3, 2, 2, 0, 1, 1, 3],
        [3, 3, 3, 3, 2, 2, 2, 1, 1, 1, 3],
        [3, 3, 3, 0, 2, 2, 0, 1, 1, 0, 3],
        [3, 3, 0, 0, 0, 0, 0, 0, 0, 0, 3],
        [3, 0, 0, 0, 0, 0, 0, 0, 0, 0, 3],
        [3, 0, 0, 0, 0, 0, 0, 0, 0, 3, 3],
        [3, 0, 1, 1, 0, 2, 2, 0, 3, 3, 3],
        [3, 1, 1, 1, 2, 2, 2, 3, 3, 3, 3],
        [3, 1, 1, 0, 2, 2, 3, 3, 3, 3, 3],
        [3, 3, 3, 3, 3, 3, 3, 3, 3, 3, 3],
    ];
    assert_eq!(turned, expected);
    assert_eq!(rotate_board(turned), BELGIAN_DAISY);
    assert_eq!(rotate_board(EMPTY_BOARD), EMPTY_BOARD);
    let mut lone = EMPTY_BOARD;
    lone[1][5] = 1;
    let seen = rotate_board(lone);
    assert_eq!(seen[9][5], 2);
    assert_eq!(seen[1][5], 0);
    assert_eq!(BOARD_SIZE, 11);
}

#[test]
fn a_committed_board_is_turned_for_black_only() {
    let mut b = EMPTY_BOARD;
    b[2][4] = 2;
    assert_eq!(committed_board(b, false), b);
    assert_eq!(committed_board(b, true), rotate_board(b));
    assert_ne!(committed_board(b, true), b);
}

#[test]
fn a_fresh_pick_allows_the_six_neighbours() {
    let mut s = Selection::new();
    assert_eq!(s.count(), 0);
    let c = Cell { x: 5, y: 5 };
    assert!(s.admits(c));
    s.pick(c);
    assert_eq!(sorted(s.selected_cells()), vec![(5, 5)]);
    assert_eq!(
        sorted(s.allowed_cells()),
        vec![(4, 5), (4, 6), (5, 4), (5, 6), (6, 4), (6, 5)]
    );
    assert!(s.is_selected(c));
    assert!(s.is_allowed(Cell { x: 6, y: 4 }));
    assert!(!s.is_allowed(Cell { x: 6, y: 6 }));
}

#[test]
fn a_pair_allows_the_two_ends_of_its_line() {
    let mut s = Selection::new();
    s.pick(Cell { x: 5, y: 5 });
    s.pick(Cell { x: 5, y: 6 });
    assert_eq!(sorted(s.selected_cells()), vec![(5, 5), (5, 6)]);
    assert_eq!(sorted(s.allowed_cells()), vec![(5, 4), (5, 7)]);
    // The third marble of the line leaves nothing more to add.
    assert!(s.admits(Cell { x: 5, y: 7 }));
    s.pick(Cell { x: 5, y: 7 });
    assert_eq!(s.count(), 3);
    assert_eq!(sorted(s.selected_cells()), vec![(5, 5), (5, 6), (5, 7)]);
    assert_eq!(sorted(s.allowed_cells()), vec![]);
    // A diagonal pair.
    let mut d = Selection::new();
    d.pick(Cell { x: 4, y: 4 });
    d.pick(Cell { x: 3, y: 5 });
    assert_eq!(sorted(d.allowed_cells()), vec![(2, 6), (5, 3)]);
}

#[test]
fn a_picked_marble_is_put_back_by_a_second_click() {
    let mut s = Selection::new();
    s.pick(Cell { x: 5, y: 5 });
    s.pick(Cell { x: 5, y: 6 });
    s.pick(Cell { x: 5, y: 5 });
    assert_eq!(sorted(s.selected_cells()), vec![(5, 6)]);
    // What may be picked next stays as it was.
    assert_eq!(sorted(s.allowed_cells()), vec![(5, 4), (5, 7)]);
    s.pick(Cell { x: 5, y: 6 });
    assert_eq!(s.count(), 0);
}

#[test]
fn a_click_elsewhere_starts_over() {
    let mut s = Selection::new();
    s.pick(Cell { x: 5, y: 5 });
    s.pick(Cell { x: 5, y: 6 });
    s.pick(Cell { x: 8, y: 2 });
    assert_eq!(sorted(s.selected_cells()), vec![(8, 2)]);
    assert_eq!(
        sorted(s.allowed_cells()),
        vec![(7, 2), (7, 3), (8, 1), (8, 3), (9, 1), (9, 2)]
    );
    // At the rim of the field the neighbours reach the border of the board.
    s.pick(Cell { x: 1, y: 9 });
    assert_eq!(
        sorted(s.allowed_cells()),
        vec![(0, 9), (0, 10), (1, 8), (1, 10), (2, 8), (2, 9)]
    );
}

#[test]
fn clicks_that_cannot_be_taken_in_are_told_apart() {
    let mut s = Selection::new();
    assert!(!s.admits(Cell { x: 0, y: 5 }));
    assert!(!s.admits(Cell { x: 5, y: 10 }));
    assert!(!s.admits(Cell { x: 10, y: 0 }));
    assert!(s.admits(Cell { x: 9, y: 9 }));
    // After a move the picked marbles are put back, what may be picked stays.
    s.pick(Cell { x: 5, y: 5 });
    s.pick(Cell { x: 5, y: 6 });
    s.pick(Cell { x: 5, y: 5 });
    // (5, 4) may be picked, but it does not lie next to (5, 6).
    assert!(s.is_allowed(Cell { x: 5, y: 4 }));
    assert!(!s.admits(Cell { x: 5, y: 4 }));
    assert!(s.admits(Cell { x: 5, y: 7 }));
    s.clear_selected();
    assert_eq!(s.count(), 0);
    assert_eq!(sorted(s.allowed_cells()), vec![(5, 4), (5, 7)]);
    // With nothing picked, an allowed marble is added and nothing is allowed next.
    assert!(s.admits(Cell { x: 5, y: 4 }));
    s.pick(Cell { x: 5, y: 4 });
    assert_eq!(sorted(s.selected_cells()), vec![(5, 4)]);
    assert_eq!(sorted(s.allowed_cells()), vec![]);
}

#[test]
fn cells_are_found_by_what_they_hold() {
    let blacks = cells_with(&BELGIAN_DAISY, BLACK);
    let whites = cells_with(&BELGIAN_DAISY, WHITE);
    let empties = cells_with(&BELGIAN_DAISY, EMPTY);
    let rim = cells_with(&BELGIAN_DAISY, OFF_BOARD);
    assert_eq!(blacks.len(), 14);
    assert_eq!(whites.len(), 14);
    assert_eq!(empties.len(), 61 - 28);
    assert_eq!(rim.len(), 121 - 61);
    assert_eq!(
        sorted(whites),
        vec![
            (1, 5), (1, 6), (2, 4), (2, 5), (2, 6), (3, 4), (3, 5),
            (7, 5), (7, 6), (8, 4), (8, 5), (8, 6), (9, 4), (9, 5),
        ]
    );
    // Row by row.
    let first: Vec<(usize, usize)> = blacks.iter().take(3).map(|c| (c.x, c.y)).collect();
    assert_eq!(first, vec![(1, 8), (1, 9), (2, 7)]);
    assert_eq!(cells_with(&EMPTY_BOARD, BLACK), vec![]);
    assert_eq!(cells_with(&EMPTY_BOARD, 7), vec![]);
}

#[test]
fn differences_name_the_cells_a_move_touched() {
    assert_eq!(differences(&BELGIAN_DAISY, &BELGIAN_DAISY), vec![]);
    let mut after = BELGIAN_DAISY;
    after[3][5] = 0;
    after[4][5] = 1;
    assert_eq!(sorted(differences(&BELGIAN_DAISY, &after)), vec![(3, 5), (4, 5)]);
    assert_eq!(sorted(differences(&after, &BELGIAN_DAISY)), vec![(3, 5), (4, 5)]);
    assert_eq!(differences(&BELGIAN_DAISY, &rotate_board(BELGIAN_DAISY)).len(), 28);
}

#[test]
fn losses_are_counted_from_fourteen() {
    assert_eq!(marbles_lost(14), 0);
    assert_eq!(marbles_lost(13), 1);
    assert_eq!(marbles_lost(8), 6);
    assert_eq!(marbles_lost(0), 14);
    assert_eq!(marbles_lost(15), 0);
    assert_eq!(marbles_lost(usize::MAX), 0);
}

#[test]
fn a_click_is_only_taken_in_where_it_can_be() {
    let mut s = Selection::new();
    assert!(!s.try_pick(Cell { x: 0, y: 3 }));
    assert_eq!(s.count(), 0);
    assert!(s.try_pick(Cell { x: 5, y: 5 }));
    assert!(s.try_pick(Cell { x: 5, y: 6 }));
    assert!(s.try_pick(Cell { x: 5, y: 5 }));
    // (5, 4) may be picked but does not lie next to (5, 6): nothing changes.
    assert!(!s.try_pick(Cell { x: 5, y: 4 }));
    assert_eq!(sorted(s.selected_cells()), vec![(5, 6)]);
    assert_eq!(sorted(s.allowed_cells()), vec![(5, 4), (5, 7)]);
    assert!(s.try_pick(Cell { x: 5, y: 7 }));
    assert_eq!(sorted(s.selected_cells()), vec![(5, 6), (5, 7)]);
    assert_eq!(sorted(s.allowed_cells()), vec![(5, 5), (5, 8)]);
}

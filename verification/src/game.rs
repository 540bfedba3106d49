use vstd::prelude::*;
use crate::board::{
    blank_rows, compacted, fits, fits_inside_empty_board, full_row_count, occupied_at, put_so_far,
    row_full, stamped, Board,
};
use crate::figure::{Figure, FigureKind};
use crate::geometry::{Direction, Position, Size};
use crate::random::thread_rng;
use crate::timing::{
    base_score, capped, level_of, line_score, lowering_micros, span, spec_level, spec_line_score,
    spec_lowering_micros, Stopwatch,
};

verus! {

/// The width of the playfield, in cells.
pub const BOARD_WIDTH: usize = 10;

/// The height of the playfield, in cells.
pub const BOARD_HEIGHT: usize = 15;

/// What a player can ask for.
#[derive(Debug, Clone, Copy, PartialEq, Eq, Structural)]
pub enum Action {
    MoveLeft,
    MoveRight,
    MoveDown,
    Drop,
    RotateClockwise,
    RotateCounterClockwise,
    TogglePause,
    Exit,
    /// No request: a key that means nothing to the game.
    Idle,
}

/// Whether a round goes on, and how it ended if it does not.
#[derive(Debug, Clone, Copy, PartialEq, Eq, Structural)]
pub enum Status {
    /// A piece is falling, or the round is paused.
    Running,
    /// A new piece found no room. Nothing changes any more.
    GameOver,
    /// The player left. Nothing changes any more.
    Exited,
}

/// Where a new piece appears: in the top row, at the middle column.
pub open spec fn spawn_position() -> Position<u8> {
    Position { x: 5, y: 0 }
}

/// A round as the rules see it.
pub struct GameView {
    /// The falling piece.
    pub figure: FigureKind,
    /// The top-left corner of the falling piece's bounding box.
    pub position: Position<u8>,
    /// The falling piece's orientation.
    pub rotation: Direction,
    /// The piece that falls next.
    pub next: FigureKind,
    /// The locked cells, row by row from the top.
    pub rows: Seq<Seq<bool>>,
    /// The level that the round began at.
    pub start_level: u8,
    /// The lines cleared so far.
    pub lines_hit: u16,
    /// The points so far.
    pub score: u64,
    /// Whether the round is paused.
    pub paused: bool,
    /// Whether the round goes on.
    pub status: Status,
    /// When the piece last went down a row, or appeared.
    pub last_lowering: u64,
    /// The clock that shows how long the round has been played.
    pub stopwatch: Stopwatch,
}

impl GameView {
    /// The round's first moment: an empty board, the first piece at its place, no points.
    pub open spec fn fresh(
        start_level: u8,
        figure: FigureKind,
        next: FigureKind,
        now: u64,
    ) -> GameView {
        GameView {
            figure,
            position: spawn_position(),
            rotation: Direction::South,
            next,
            rows: blank_rows(Size { height: BOARD_HEIGHT, width: BOARD_WIDTH }),
            start_level,
            lines_hit: 0,
            score: 0,
            paused: false,
            status: Status::Running,
            last_lowering: now,
            stopwatch: Stopwatch { accumulated: 0, started: Some(now) },
        }
    }

    /// The level.
    pub open spec fn level(self) -> int {
        spec_level(self.start_level, self.lines_hit)
    }

    /// Whether the falling piece would meet nothing in the given orientation at the given
    /// place.
    pub open spec fn fits_at(self, rotation: Direction, position: Position<u8>) -> bool {
        fits(self.rows, self.figure.shape(rotation), self.figure.rotated_size(rotation), position)
    }

    /// The round with the piece at `position`, where it fits there; else unchanged.
    pub open spec fn moved_to(self, position: Position<u8>) -> GameView {
        if self.fits_at(self.rotation, position) {
            GameView { position, ..self }
        } else {
            self
        }
    }

    /// The round with the piece turned one step, where it fits so at its place; else
    /// unchanged.
    pub open spec fn turned(self, clockwise: bool) -> GameView {
        let rotation = self.rotation.spec_turned(clockwise);
        if self.fits_at(rotation, self.position) {
            GameView { rotation, ..self }
        } else {
            self
        }
    }

    /// The place one column to the left; the same place at the left edge of the coordinates.
    pub open spec fn left(self) -> Position<u8> {
        Position {
            x: if self.position.x > 0 {
                (self.position.x - 1) as u8
            } else {
                0u8
            },
            y: self.position.y,
        }
    }

    /// The place one column to the right; the same place at the right edge of the
    /// coordinates.
    pub open spec fn right(self) -> Position<u8> {
        Position {
            x: if self.position.x < 255 {
                (self.position.x + 1) as u8
            } else {
                255u8
            },
            y: self.position.y,
        }
    }

    /// The place one row down; the same place at the lower edge of the coordinates.
    pub open spec fn below(self) -> Position<u8> {
        Position {
            x: self.position.x,
            y: if self.position.y < 255 {
                (self.position.y + 1) as u8
            } else {
                255u8
            },
        }
    }

    /// The round after the piece was locked where it is: its cells are on the board, the full
    /// rows have left, lines and points are counted at the level then reached, and the next
    /// piece has appeared, with `next` to follow it. Where the new piece finds no room the
    /// round is over.
    pub open spec fn locked(self, next: FigureKind, now: u64) -> GameView {
        let placed = stamped(
            self.rows,
            self.figure.shape(self.rotation),
            self.figure.rotated_size(self.rotation),
            self.position,
        );
        let cleared = full_row_count(placed);
        let lines_hit = if self.lines_hit + cleared > u16::MAX {
            u16::MAX
        } else {
            (self.lines_hit + cleared) as u16
        };
        let level = spec_level(self.start_level, lines_hit);
        let spawned = GameView {
            figure: self.next,
            position: spawn_position(),
            rotation: Direction::South,
            next,
            rows: compacted(placed, BOARD_WIDTH as nat),
            lines_hit,
            score: capped(self.score + spec_line_score(cleared, level)) as u64,
            last_lowering: now,
            ..self
        };
        if spawned.fits_at(Direction::South, spawn_position()) {
            spawned
        } else {
            GameView { status: Status::GameOver, ..spawned }
        }
    }

    /// The round after one step down: the piece is a row lower and the fall timer starts
    /// anew, or, where the piece cannot go down, it is locked.
    pub open spec fn lowered(self, next: FigureKind, now: u64) -> GameView {
        if self.fits_at(self.rotation, self.below()) {
            GameView { position: self.below(), last_lowering: now, ..self }
        } else {
            self.locked(next, now)
        }
    }

    /// The round with the piece as far down as it can go.
    pub open spec fn sunk(self) -> GameView
        decreases 255 - self.position.y,
    {
        if self.position.y < 255 && self.fits_at(self.rotation, self.below()) {
            (GameView { position: self.below(), ..self }).sunk()
        } else {
            self
        }
    }

    /// Whether the round takes moves: it goes on and is not paused.
    pub open spec fn falling(self) -> bool {
        self.status == Status::Running && !self.paused
    }

    /// The round after one action on the falling piece. A round that is paused or has ended
    /// stays as it is, and so does it on an action that is none of the moves.
    pub open spec fn acted(self, action: Action, next: FigureKind, now: u64) -> GameView {
        if !self.falling() {
            self
        } else {
            match action {
                Action::MoveLeft => self.moved_to(self.left()),
                Action::MoveRight => self.moved_to(self.right()),
                Action::MoveDown => self.lowered(next, now),
                Action::Drop => self.sunk().locked(next, now),
                Action::RotateClockwise => self.turned(true),
                Action::RotateCounterClockwise => self.turned(false),
                _ => self,
            }
        }
    }

    /// Whether an action locks the piece, so that a new piece is drawn.
    pub open spec fn locks_on(self, action: Action) -> bool {
        self.falling() && (action == Action::Drop || (action == Action::MoveDown && !self.fits_at(
            self.rotation,
            self.below(),
        )))
    }

    /// Whether the fall timer has run out at `now`.
    pub open spec fn gravity_due(self, now: u64) -> bool {
        self.falling() && span(self.last_lowering, now) > spec_lowering_micros(self.level())
    }

    /// The round after the automatic step down, where one is due.
    pub open spec fn pulled(self, next: FigureKind, now: u64) -> GameView {
        if self.gravity_due(now) {
            self.lowered(next, now)
        } else {
            self
        }
    }

    /// The round with the pause switched: the clock halts on pausing, and on resuming it
    /// goes on and the fall timer starts anew.
    pub open spec fn pause_toggled(self, now: u64) -> GameView {
        if self.paused {
            GameView {
                paused: false,
                stopwatch: self.stopwatch.spec_started(now),
                last_lowering: now,
                ..self
            }
        } else {
            GameView { paused: true, stopwatch: self.stopwatch.spec_paused(now), ..self }
        }
    }

    /// The round after the actions, one after the other. Action `i` draws `draws[i]` where it
    /// locks the piece.
    pub open spec fn acted_all(
        self,
        actions: Seq<Action>,
        draws: Seq<FigureKind>,
        now: u64,
    ) -> GameView
        decreases actions.len(),
    {
        if actions.len() == 0 {
            self
        } else {
            self.acted_all(actions.drop_last(), draws, now).acted(
                actions.last(),
                draws[actions.len() - 1],
                now,
            )
        }
    }

    /// Whether the falling piece lies where it meets nothing, as long as the round goes on.
    pub open spec fn piece_legal(self) -> bool {
        self.status == Status::Running ==> self.fits_at(self.rotation, self.position)
    }

    /// The round after a tick's first part, which looks at the whole batch. A round that has
    /// ended stays as it is. An `Exit` anywhere in the batch ends the round, whatever else the
    /// batch holds. Else a `TogglePause` anywhere in it switches the pause.
    pub open spec fn begun(self, actions: Seq<Action>, now: u64) -> GameView {
        if self.status != Status::Running {
            self
        } else if actions.contains(Action::Exit) {
            GameView { status: Status::Exited, ..self }
        } else if actions.contains(Action::TogglePause) {
            self.pause_toggled(now)
        } else {
            self
        }
    }

    /// The round after one tick at `now` with a batch of actions. After the first part, and
    /// unless the round has then ended or is paused, the actions are applied in their order
    /// and the automatic step down follows, which draws the last of `draws` where it locks
    /// the piece.
    pub open spec fn ticked(
        self,
        actions: Seq<Action>,
        draws: Seq<FigureKind>,
        now: u64,
    ) -> GameView {
        let begun = self.begun(actions, now);
        if begun.falling() {
            begun.acted_all(actions, draws, now).pulled(draws[actions.len() as int], now)
        } else {
            begun
        }
    }
}

/// Where an action does not lock the piece, the round after it is the same whatever piece
/// was drawn.
pub proof fn draw_unused_without_lock(
    view: GameView,
    action: Action,
    one: FigureKind,
    other: FigureKind,
    now: u64,
)
    requires
        !view.locks_on(action),
    ensures
        view.acted(action, one, now) == view.acted(action, other, now),
{
}

/// The round after a batch of actions depends on no more draws than the batch has actions.
pub proof fn draws_read_in_step(
    view: GameView,
    actions: Seq<Action>,
    one: Seq<FigureKind>,
    other: Seq<FigureKind>,
    now: u64,
)
    requires
        forall|i: int| 0 <= i < actions.len() ==> one[i] == other[i],
    ensures
        view.acted_all(actions, one, now) == view.acted_all(actions, other, now),
    decreases actions.len(),
{
    if actions.len() > 0 {
        draws_read_in_step(view, actions.drop_last(), one, other, now);
    }
}

/// A round that has ended stays as it is at every tick.
pub proof fn ended_round_stands(
    view: GameView,
    actions: Seq<Action>,
    draws: Seq<FigureKind>,
    now: u64,
)
    requires
        view.status != Status::Running,
    ensures
        view.ticked(actions, draws, now) == view,
{
}

/// A paused round stays as it is at every tick whose batch holds neither `TogglePause` nor
/// `Exit`: the piece does not move, whatever time has passed, and the clock shows what it
/// showed.
pub proof fn paused_round_stands(
    view: GameView,
    actions: Seq<Action>,
    draws: Seq<FigureKind>,
    now: u64,
)
    requires
        view.paused,
        !actions.contains(Action::TogglePause),
        !actions.contains(Action::Exit),
    ensures
        view.ticked(actions, draws, now) == view,
{
}

/// On an empty playfield every piece fits in every orientation wherever its bounding box
/// lies within the playfield.
pub proof fn piece_fits_empty_playfield(view: GameView, rotation: Direction, position: Position<u8>)
    requires
        view.rows == blank_rows(Size { height: BOARD_HEIGHT, width: BOARD_WIDTH }),
        position.x + view.figure.rotated_size(rotation).width <= BOARD_WIDTH,
        position.y + view.figure.rotated_size(rotation).height <= BOARD_HEIGHT,
    ensures
        view.fits_at(rotation, position),
{
    fits_inside_empty_board(
        Size { height: BOARD_HEIGHT, width: BOARD_WIDTH },
        view.figure.shape(rotation),
        view.figure.rotated_size(rotation),
        position,
    );
}

/// A round begins with its first piece where it meets nothing.
pub proof fn fresh_round_is_legal(start_level: u8, figure: FigureKind, next: FigureKind, now: u64)
    ensures
        GameView::fresh(start_level, figure, next, now).piece_legal(),
{
    piece_fits_empty_playfield(
        GameView::fresh(start_level, figure, next, now),
        Direction::South,
        spawn_position(),
    );
}

/// No action leaves the falling piece where it overlaps a locked cell or the outside of the
/// playfield: after every action the piece lies where it meets nothing, or the round is over.
pub proof fn action_keeps_piece_legal(view: GameView, action: Action, next: FigureKind, now: u64)
    requires
        view.piece_legal(),
    ensures
        view.acted(action, next, now).piece_legal(),
{
}

/// No tick leaves the falling piece where it overlaps a locked cell or the outside of the
/// playfield.
pub proof fn tick_keeps_piece_legal(
    view: GameView,
    actions: Seq<Action>,
    draws: Seq<FigureKind>,
    now: u64,
)
    requires
        view.piece_legal(),
    ensures
        view.ticked(actions, draws, now).piece_legal(),
{
    let begun = view.begun(actions, now);
    assert(begun.piece_legal());
    batch_keeps_piece_legal(begun, actions, draws, now);
}

/// No batch of actions leaves the falling piece where it overlaps a locked cell or the
/// outside of the playfield.
pub proof fn batch_keeps_piece_legal(
    view: GameView,
    actions: Seq<Action>,
    draws: Seq<FigureKind>,
    now: u64,
)
    requires
        view.piece_legal(),
    ensures
        view.acted_all(actions, draws, now).piece_legal(),
    decreases actions.len(),
{
    if actions.len() > 0 {
        batch_keeps_piece_legal(view, actions.drop_last(), draws, now);
        action_keeps_piece_legal(
            view.acted_all(actions.drop_last(), draws, now),
            actions.last(),
            draws[actions.len() - 1],
            now,
        );
    }
}

/// A lock counts the rows that the piece completed, and brings the points of the table for
/// that many rows, times one more than the level reached with them.
pub proof fn lock_counts_lines_and_points(view: GameView, next: FigureKind, now: u64)
    ensures
        ({
            let after = view.locked(next, now);
            let cleared = full_row_count(
                stamped(
                    view.rows,
                    view.figure.shape(view.rotation),
                    view.figure.rotated_size(view.rotation),
                    view.position,
                ),
            );
            &&& after.lines_hit == if view.lines_hit + cleared > u16::MAX {
                u16::MAX as int
            } else {
                view.lines_hit + cleared
            }
            &&& after.score == capped(
                view.score + base_score(cleared) * (after.level() + 1),
            )
            &&& after.start_level == view.start_level
        }),
{
}

/// Whether the batch holds the action.
pub fn holds(actions: &Vec<Action>, wanted: Action) -> (found: bool)
    ensures
        found == actions@.contains(wanted),
{
    let mut i: usize = 0;
    while i < actions.len()
        invariant
            i <= actions@.len(),
            forall|k: int| 0 <= k < i ==> actions@[k] != wanted,
        decreases actions@.len() - i,
    {
        if actions[i] == wanted {
            return true;
        }
        i += 1;
    }
    false
}

/// A round: the falling piece, the piece to come, the board, the count of lines and points,
/// and the clocks.
pub struct GameState {
    current_figure: FigureKind,
    current_figure_position: Position<u8>,
    current_figure_rotation: Direction,
    next_figure: FigureKind,
    board: Board,
    start_level: u8,
    lines_hit: u16,
    score: u64,
    paused: bool,
    status: Status,
    last_figure_lowering_time: u64,
    stopwatch: Stopwatch,
}

impl View for GameState {
    type V = GameView;

    closed spec fn view(&self) -> GameView {
        GameView {
            figure: self.current_figure,
            position: self.current_figure_position,
            rotation: self.current_figure_rotation,
            next: self.next_figure,
            rows: self.board@,
            start_level: self.start_level,
            lines_hit: self.lines_hit,
            score: self.score,
            paused: self.paused,
            status: self.status,
            last_lowering: self.last_figure_lowering_time,
            stopwatch: self.stopwatch,
        }
    }
}

impl GameState {
    /// The board is consistent and has the playfield's extent.
    pub closed spec fn inv(&self) -> bool {
        &&& self.board.wf()
        &&& self.board.spec_size() == (Size { height: BOARD_HEIGHT, width: BOARD_WIDTH })
    }

    /// The round is consistent, and its rows are a rectangle of the playfield's extent.
    pub open spec fn wf(&self) -> bool {
        &&& self.inv()
        &&& self@.rows.len() == BOARD_HEIGHT
        &&& forall|y: int|
            0 <= y < self@.rows.len() ==> (#[trigger] self@.rows[y]).len() == BOARD_WIDTH
    }

    /// A round that begins at `now` with the given piece falling and the given piece to come.
    pub fn with_figures(
        start_level: u8,
        current: FigureKind,
        next: FigureKind,
        now: u64,
    ) -> (state: GameState)
        ensures
            state.wf(),
            state@ == GameView::fresh(start_level, current, next, now),
    {
        assert(BOARD_WIDTH * BOARD_HEIGHT == 150) by (nonlinear_arith)
            requires
                BOARD_WIDTH == 10,
                BOARD_HEIGHT == 15,
        ;
        let board = Board::new(Size { height: BOARD_HEIGHT, width: BOARD_WIDTH });
        let mut stopwatch = Stopwatch::new();
        stopwatch.start(now);
        GameState {
            current_figure: current,
            current_figure_position: Position { x: (BOARD_WIDTH / 2) as u8, y: 0 },
            current_figure_rotation: Direction::South,
            next_figure: next,
            board,
            start_level,
            lines_hit: 0,
            score: 0,
            paused: false,
            status: Status::Running,
            last_figure_lowering_time: now,
            stopwatch,
        }
    }

    /// A round that begins at `now`, with both pieces drawn at random.
    pub fn new(start_level: u8, now: u64) -> (state: GameState)
        ensures
            state.wf(),
            exists|current: FigureKind, next: FigureKind|
                state@ == GameView::fresh(start_level, current, next, now),
    {
        let mut rng = thread_rng();
        let current = Figure::choose_random(&mut rng);
        let next = Figure::choose_random(&mut rng);
        GameState::with_figures(start_level, current, next, now)
    }

    /// The level.
    pub fn level(&self) -> (level: u8)
        ensures
            level == self@.level(),
    {
        level_of(self.start_level, self.lines_hit)
    }

    /// The time between two automatic steps down at the round's level, in microseconds.
    pub fn figure_lowering_duration(&self) -> (micros: u64)
        ensures
            micros == spec_lowering_micros(self@.level()),
    {
        lowering_micros(self.level())
    }

    /// Whether the figure, in the given orientation, can be put on the round's board with
    /// its top-left corner at `pos`.
    pub fn can_place_rotated_figure(
        &self,
        figure: &Figure,
        direction: Direction,
        pos: Position<u8>,
    ) -> (ok: bool)
        requires
            self.wf(),
            figure.wf(),
        ensures
            ok == fits(
                self@.rows,
                figure.shape(direction),
                figure.spec_rotated_size(direction),
                pos,
            ),
    {
        let rotated_size = figure.rotated_size(direction);
        let look = |row: usize, col: usize| -> (occupied: bool)
            ensures
                occupied == figure.spec_rotated_cell(direction, row as int, col as int),
            { figure.rotated_cell(direction, row, col) };
        let ok = self.board.can_place_figure_with_size(rotated_size, look, pos);
        proof {
            let shape = figure.shape(direction);
            if ok {
                assert forall|row: int, col: int|
                    0 <= row < rotated_size.height && 0 <= col < rotated_size.width
                        && #[trigger] shape(row, col) implies !occupied_at(
                    self@.rows,
                    pos.x + col,
                    pos.y + row,
                ) by {
                    assert(call_ensures(look, (row as usize, col as usize), false)
                        || !occupied_at(
                        self@.rows,
                        pos.x + col as usize,
                        pos.y + row as usize,
                    ));
                }
            } else {
                let (row, col) = choose|row: usize, col: usize|
                    row < rotated_size.height && col < rotated_size.width
                        && #[trigger] call_ensures(
                        look,
                        (row, col),
                        true,
                    ) && occupied_at(self@.rows, pos.x + col, pos.y + row);
                assert(shape(row as int, col as int));
            }
        }
        ok
    }

    /// Puts the figure, in the given orientation, on the round's board with its top-left
    /// corner at `pos`.
    pub fn place_rotated_figure(&mut self, figure: &Figure, direction: Direction, pos: Position<u8>)
        requires
            old(self).wf(),
            figure.wf(),
        ensures
            final(self).wf(),
            final(self)@ == (GameView {
                rows: stamped(
                    old(self)@.rows,
                    figure.shape(direction),
                    figure.spec_rotated_size(direction),
                    pos,
                ),
                ..old(self)@
            }),
    {
        let rotated_size = figure.rotated_size(direction);
        let look = |row: usize, col: usize| -> (occupied: bool)
            ensures
                occupied == figure.spec_rotated_cell(direction, row as int, col as int),
            { figure.rotated_cell(direction, row, col) };
        self.board.place_figure_with_size(rotated_size, look, pos);
        proof {
            let before = old(self)@.rows;
            let goal = stamped(before, figure.shape(direction), rotated_size, pos);
            assert forall|y: int, x: int|
                0 <= y < before.len() && 0 <= x < before[y].len() implies (
            #[trigger] self@.rows[y][x]) == goal[y][x] by {
                assert(put_so_far(
                    look,
                    rotated_size,
                    pos,
                    rotated_size.height as int,
                    0,
                    before[y][x],
                    self@.rows[y][x],
                    x,
                    y,
                ));
            }
            assert(self@.rows =~~= goal);
        }
    }

    /// Whether the falling piece would meet nothing in the given orientation at the given
    /// place.
    fn fits_current(&self, rotation: Direction, pos: Position<u8>) -> (ok: bool)
        requires
            self.wf(),
        ensures
            ok == self@.fits_at(rotation, pos),
    {
        let figure = Figure::of_kind(self.current_figure);
        self.can_place_rotated_figure(&figure, rotation, pos)
    }

    /// Moves the falling piece to `pos` where it fits there.
    fn move_current_figure(&mut self, pos: Position<u8>)
        requires
            old(self).wf(),
        ensures
            final(self).wf(),
            final(self)@ == old(self)@.moved_to(pos),
    {
        if self.fits_current(self.current_figure_rotation, pos) {
            self.current_figure_position = pos;
        }
    }

    /// Turns the falling piece one step on the ring where it fits so at its place.
    fn rotate_current_figure(&mut self, clockwise: bool)
        requires
            old(self).wf(),
        ensures
            final(self).wf(),
            final(self)@ == old(self)@.turned(clockwise),
    {
        let new_rotation = self.current_figure_rotation.turned(clockwise);
        if self.fits_current(new_rotation, self.current_figure_position) {
            self.current_figure_rotation = new_rotation;
        }
    }

    /// Lets the piece to come fall from the top, with `next` to follow it, and starts the
    /// fall timer anew.
    fn spawn_new_figure(&mut self, next: FigureKind, now: u64)
        requires
            old(self).wf(),
        ensures
            final(self).wf(),
            final(self)@ == (GameView {
                figure: old(self)@.next,
                position: spawn_position(),
                rotation: Direction::South,
                next,
                last_lowering: now,
                ..old(self)@
            }),
    {
        self.current_figure = self.next_figure;
        self.current_figure_position = Position { x: (BOARD_WIDTH / 2) as u8, y: 0 };
        self.current_figure_rotation = Direction::South;
        self.next_figure = next;
        self.last_figure_lowering_time = now;
    }

    /// Locks the falling piece where it is, clears the full rows, counts lines and points,
    /// and lets the next piece fall, with `next` to follow it. The round is over where the
    /// new piece finds no room.
    fn freeze_current_figure(&mut self, next: FigureKind, now: u64)
        requires
            old(self).wf(),
        ensures
            final(self).wf(),
            final(self)@ == old(self)@.locked(next, now),
    {
        let figure = Figure::of_kind(self.current_figure);
        let rotation = self.current_figure_rotation;
        let position = self.current_figure_position;
        self.place_rotated_figure(&figure, rotation, position);
        let ghost placed = self@.rows;
        proof {
            placed.lemma_filter_len(|row: Seq<bool>| !row_full(row));
            assert(placed == stamped(
                old(self)@.rows,
                old(self)@.figure.shape(rotation),
                old(self)@.figure.rotated_size(rotation),
                position,
            ));
        }
        let cleared = self.board.clear_full_lines();
        assert(cleared == full_row_count(placed));
        assert(self@.rows == compacted(placed, BOARD_WIDTH as nat));
        if cleared > 0 {
            self.lines_hit = self.lines_hit.saturating_add(cleared as u16);
            let level = self.level();
            self.score = self.score.saturating_add(line_score(cleared, level));
        }
        assert(self@.score == capped(
            old(self)@.score + spec_line_score(cleared as int, self@.level()),
        ));
        self.spawn_new_figure(next, now);
        if !self.fits_current(self.current_figure_rotation, self.current_figure_position) {
            self.status = Status::GameOver;
        }
    }

    /// Moves the falling piece one row down and starts the fall timer anew, or locks the
    /// piece where it cannot go down.
    fn lower_current_figure(&mut self, next: FigureKind, now: u64)
        requires
            old(self).wf(),
        ensures
            final(self).wf(),
            final(self)@ == old(self)@.lowered(next, now),
    {
        let new_position = Position {
            x: self.current_figure_position.x,
            y: self.current_figure_position.y.saturating_add(1),
        };
        if self.fits_current(self.current_figure_rotation, new_position) {
            self.current_figure_position = new_position;
            self.last_figure_lowering_time = now;
        } else {
            self.freeze_current_figure(next, now);
        }
    }

    /// Moves the falling piece down as far as it can go.
    fn sink_current_figure(&mut self)
        requires
            old(self).wf(),
        ensures
            final(self).wf(),
            final(self)@ == old(self)@.sunk(),
    {
        loop
            invariant
                self.wf(),
                self@.sunk() == old(self)@.sunk(),
            ensures
                self@ == old(self)@.sunk(),
            decreases 255 - self.current_figure_position.y,
        {
            if self.current_figure_position.y == 255 {
                break ;
            }
            let new_position = Position {
                x: self.current_figure_position.x,
                y: self.current_figure_position.y + 1,
            };
            if !self.fits_current(self.current_figure_rotation, new_position) {
                break ;
            }
            self.current_figure_position = new_position;
        }
    }

    /// The automatic step down, where the fall timer has run out at `now`.
    fn lower_current_figure_if_should(&mut self, next: FigureKind, now: u64)
        requires
            old(self).wf(),
        ensures
            final(self).wf(),
            final(self)@ == old(self)@.pulled(next, now),
    {
        if self.gravity_due(now) {
            self.lower_current_figure(next, now);
        }
    }

    /// Whether the round goes on and is not paused, and the fall timer has run out at `now`.
    pub fn gravity_due(&self, now: u64) -> (due: bool)
        ensures
            due == self@.gravity_due(now),
    {
        self.status == Status::Running && !self.paused && now.saturating_sub(
            self.last_figure_lowering_time,
        ) > self.figure_lowering_duration()
    }

    /// Whether an action would lock the falling piece, so that a new piece is to be drawn.
    pub fn locks_on(&self, action: Action) -> (locks: bool)
        requires
            self.wf(),
        ensures
            locks == self@.locks_on(action),
    {
        if self.status != Status::Running || self.paused {
            return false;
        }
        match action {
            Action::Drop => true,
            Action::MoveDown => {
                let new_position = Position {
                    x: self.current_figure_position.x,
                    y: self.current_figure_position.y.saturating_add(1),
                };
                !self.fits_current(self.current_figure_rotation, new_position)
            },
            _ => false,
        }
    }

    /// Applies one action to the falling piece. Where the action locks the piece, `next` is
    /// the piece that follows the one to come.
    pub fn apply(&mut self, action: Action, next: FigureKind, now: u64)
        requires
            old(self).wf(),
        ensures
            final(self).wf(),
            final(self)@ == old(self)@.acted(action, next, now),
    {
        if self.status != Status::Running || self.paused {
            return ;
        }
        match action {
            Action::MoveLeft => {
                let new_position = Position {
                    x: self.current_figure_position.x.saturating_sub(1),
                    y: self.current_figure_position.y,
                };
                self.move_current_figure(new_position);
            },
            Action::MoveRight => {
                let new_position = Position {
                    x: self.current_figure_position.x.saturating_add(1),
                    y: self.current_figure_position.y,
                };
                self.move_current_figure(new_position);
            },
            Action::MoveDown => {
                self.lower_current_figure(next, now);
            },
            Action::Drop => {
                self.sink_current_figure();
                self.freeze_current_figure(next, now);
            },
            Action::RotateClockwise => {
                self.rotate_current_figure(true);
            },
            Action::RotateCounterClockwise => {
                self.rotate_current_figure(false);
            },
            _ => {},
        }
    }

    /// Switches the pause at `now`.
    fn toggle_pause(&mut self, now: u64)
        requires
            old(self).wf(),
        ensures
            final(self).wf(),
            final(self)@ == old(self)@.pause_toggled(now),
    {
        if self.paused {
            self.paused = false;
            self.stopwatch.start(now);
            self.last_figure_lowering_time = now;
        } else {
            self.paused = true;
            self.stopwatch.pause(now);
        }
    }

    /// A tick's first part: ends the round on an `Exit` in the batch, or else switches the
    /// pause on a `TogglePause` in it. Tells whether the round then takes moves.
    fn begin_tick(&mut self, now: u64, actions: &Vec<Action>) -> (falling: bool)
        requires
            old(self).wf(),
        ensures
            final(self).wf(),
            final(self)@ == old(self)@.begun(actions@, now),
            falling == final(self)@.falling(),
    {
        if self.status == Status::Running {
            if holds(actions, Action::Exit) {
                self.status = Status::Exited;
            } else if holds(actions, Action::TogglePause) {
                self.toggle_pause(now);
            }
        }
        self.status == Status::Running && !self.paused
    }

    /// One tick at `now` with a batch of actions, where the pieces to draw are given: action
    /// `i` draws `draws[i]` where it locks the piece, and the automatic step down draws the
    /// last of `draws`.
    pub fn update_with(&mut self, now: u64, actions: &Vec<Action>, draws: &Vec<FigureKind>)
        requires
            old(self).wf(),
            draws@.len() == actions@.len() + 1,
        ensures
            final(self).wf(),
            final(self)@ == old(self)@.ticked(actions@, draws@, now),
    {
        if !self.begin_tick(now, actions) {
            return ;
        }
        let ghost begun = self@;
        let mut i: usize = 0;
        while i < actions.len()
            invariant
                self.wf(),
                i <= actions@.len(),
                draws@.len() == actions@.len() + 1,
                self@ == begun.acted_all(actions@.take(i as int), draws@, now),
            decreases actions@.len() - i,
        {
            assert(actions@.take(i + 1).drop_last() =~= actions@.take(i as int));
            self.apply(actions[i], draws[i], now);
            i += 1;
        }
        assert(actions@.take(i as int) =~= actions@);
        self.lower_current_figure_if_should(draws[i], now);
    }

    /// One tick at `now` with a batch of actions. Each piece that is needed is drawn at
    /// random when the falling piece locks.
    pub fn update(&mut self, now: u64, actions: &Vec<Action>)
        requires
            old(self).wf(),
        ensures
            final(self).wf(),
            exists|draws: Seq<FigureKind>|
                draws.len() == actions@.len() + 1 && final(self)@ == old(self)@.ticked(
                    actions@,
                    draws,
                    now,
                ),
    {
        let ghost start = self@;
        if !self.begin_tick(now, actions) {
            proof {
                let draws = Seq::new(actions@.len() + 1, |i: int| FigureKind::I);
                assert(draws.len() == actions@.len() + 1 && self@ == start.ticked(
                    actions@,
                    draws,
                    now,
                ));
            }
            return ;
        }
        let ghost begun = self@;
        let mut rng = thread_rng();
        let ghost mut drawn: Seq<FigureKind> = Seq::empty();
        let mut i: usize = 0;
        while i < actions.len()
            invariant
                self.wf(),
                i <= actions@.len(),
                drawn.len() == i,
                self@ == begun.acted_all(actions@.take(i as int), drawn, now),
            decreases actions@.len() - i,
        {
            let action = actions[i];
            let next = if self.locks_on(action) {
                Figure::choose_random(&mut rng)
            } else {
                self.next_figure
            };
            proof {
                assert(actions@.take(i + 1).drop_last() =~= actions@.take(i as int));
                draws_read_in_step(begun, actions@.take(i as int), drawn, drawn.push(next), now);
                drawn = drawn.push(next);
            }
            self.apply(action, next, now);
            i += 1;
        }
        let last = if self.gravity_due(now) {
            Figure::choose_random(&mut rng)
        } else {
            self.next_figure
        };
        proof {
            assert(actions@.take(i as int) =~= actions@);
            draws_read_in_step(begun, actions@, drawn, drawn.push(last), now);
            drawn = drawn.push(last);
        }
        self.lower_current_figure_if_should(last, now);
        assert(drawn.len() == actions@.len() + 1 && self@ == start.ticked(actions@, drawn, now));
    }

    /// The falling piece.
    pub fn current_figure(&self) -> (kind: FigureKind)
        ensures
            kind == self@.figure,
    {
        self.current_figure
    }

    /// The top-left corner of the falling piece's bounding box.
    pub fn current_figure_position(&self) -> (position: Position<u8>)
        ensures
            position == self@.position,
    {
        self.current_figure_position
    }

    /// The falling piece's orientation.
    pub fn current_figure_rotation(&self) -> (rotation: Direction)
        ensures
            rotation == self@.rotation,
    {
        self.current_figure_rotation
    }

    /// The piece that falls next.
    pub fn next_figure(&self) -> (kind: FigureKind)
        ensures
            kind == self@.next,
    {
        self.next_figure
    }

    /// The board with the locked cells.
    pub fn board(&self) -> (board: &Board)
        requires
            self.wf(),
        ensures
            board.wf(),
            board@ == self@.rows,
            board.spec_size() == (Size { height: BOARD_HEIGHT, width: BOARD_WIDTH }),
    {
        &self.board
    }

    /// The lines cleared so far.
    pub fn lines_hit(&self) -> (lines: u16)
        ensures
            lines == self@.lines_hit,
    {
        self.lines_hit
    }

    /// The points so far.
    pub fn score(&self) -> (score: u64)
        ensures
            score == self@.score,
    {
        self.score
    }

    /// Whether the round is paused.
    pub fn is_paused(&self) -> (paused: bool)
        ensures
            paused == self@.paused,
    {
        self.paused
    }

    /// Whether the round goes on, and how it ended if it does not.
    pub fn status(&self) -> (status: Status)
        ensures
            status == self@.status,
    {
        self.status
    }

    /// Whether the round goes on.
    pub fn is_running(&self) -> (running: bool)
        ensures
            running == (self@.status == Status::Running),
    {
        self.status == Status::Running
    }

    /// How long the round has been played at `now`, in microseconds, the pauses left out.
    pub fn elapsed(&self, now: u64) -> (micros: u64)
        ensures
            micros == self@.stopwatch.spec_elapsed(now),
    {
        self.stopwatch.elapsed(now)
    }
}

/// Ends a round that goes on: the player leaves.
pub fn exit_from_game(state: &mut GameState)
    ensures
        final(state)@ == (GameView {
            status: if old(state)@.status == Status::Running {
                Status::Exited
            } else {
                old(state)@.status
            },
            ..old(state)@
        }),
        old(state).wf() ==> final(state).wf(),
{
    if state.status == Status::Running {
        state.status = Status::Exited;
    }
}

} // verus!

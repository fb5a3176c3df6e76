//! The application state and the rules that change it: one action at a time,
//! one event at a time.

use crate::action::{event_action, get_action, Action, Event, Key};
use crate::rows::{
    coin_view, filter_rows, lemma_select_rows_len, select_rows, views, PriceRow, PriceRowView,
};
use crate::search::{filter_of, normalize, normalized};
use crate::table::{scroll_extent, Table, TableView, ITEM_HEIGHT};
use crate::theme::{color_after, color_before, palette, palette_at, TableColors, PALETTE_COUNT};
use vstd::prelude::*;

verus! {

/// Which handler sees the keys.
#[derive(Clone, Copy, Debug, PartialEq, Eq, Structural)]
pub enum Mode {
    /// Keys navigate the table.
    Normal,
    /// Keys edit the search box.
    SearchEdit,
}

/// What the caller is to do after an action has been applied.
#[derive(Clone, Copy, Debug, PartialEq, Eq, Structural)]
pub enum Effect {
    /// Nothing.
    Idle,
    /// Ask the provider for prices and hand them to `App::load`.
    Fetch,
    /// Draw the state.
    Draw,
    /// Show an empty search box.
    OpenSearch,
}

/// Where an event goes.
#[derive(Debug, PartialEq, Eq)]
pub enum Routed {
    /// Onto the action queue.
    Enqueue(Action),
    /// To the search box, which edits its text.
    Edit(Key),
    /// The search box is done: hand its first line to `App::commit_search`.
    Commit,
    /// Nowhere.
    Dropped,
}

/// What an `App` stands for.
pub struct AppView {
    pub table: TableView,
    pub colors: TableColors,
    pub color_index: nat,
    pub mode: Mode,
    pub search_coin: Option<Seq<char>>,
    pub should_quit: bool,
}

impl AppView {
    /// The state at startup, once the provider has answered with `all`:
    /// no filter, the first palette, normal mode.
    pub open spec fn initial(all: Seq<PriceRowView>) -> AppView {
        AppView {
            table: TableView::fresh(select_rows(all, None)),
            colors: TableColors::themed(palette_at(0)),
            color_index: 0,
            mode: Mode::Normal,
            search_coin: None,
            should_quit: false,
        }
    }

    /// The state after the provider has answered a refresh with `all`: the
    /// table is replaced whole, everything else stays.
    pub open spec fn loaded(self, all: Seq<PriceRowView>) -> AppView {
        AppView { table: TableView::fresh(select_rows(all, self.search_coin)), ..self }
    }

    /// The state with the colours of the chosen palette.
    pub open spec fn recolored(self) -> AppView {
        AppView { colors: TableColors::themed(palette_at(self.color_index as int)), ..self }
    }

    /// The state after one action.
    pub open spec fn step(self, action: Action) -> AppView {
        match action {
            Action::NEXT => AppView { table: self.table.next(), ..self },
            Action::PREVIOUS => AppView { table: self.table.previous(), ..self },
            Action::NextColor => AppView { color_index: color_after(self.color_index), ..self },
            Action::PreviousColor => AppView {
                color_index: color_before(self.color_index),
                ..self
            },
            Action::SearchFocus => AppView { mode: Mode::SearchEdit, ..self },
            Action::SearchCoin(coin) => AppView { search_coin: filter_of(coin@), ..self },
            Action::Quit => AppView { should_quit: true, ..self },
            _ => self,
        }
    }

    /// The state after the same action `times` times.
    pub open spec fn repeat(self, action: Action, times: nat) -> AppView
        decreases times,
    {
        if times == 0 {
            self
        } else {
            self.repeat(action, (times - 1) as nat).step(action)
        }
    }

    /// Where an event goes in this state. While the search box is open every
    /// key belongs to it, and Enter or Escape closes it.
    pub open spec fn route(self, event: Event) -> Routed {
        match event {
            Event::Quit => Routed::Enqueue(Action::Quit),
            Event::Tick => Routed::Enqueue(Action::Tick),
            Event::Render => Routed::Enqueue(Action::Render),
            Event::Key(key) => {
                if self.mode == Mode::SearchEdit {
                    if key == Key::Esc || key == Key::Enter {
                        Routed::Commit
                    } else {
                        Routed::Edit(key)
                    }
                } else {
                    Routed::Enqueue(event_action(event))
                }
            },
            _ => Routed::Dropped,
        }
    }

    /// The table is well formed, the palette is one of the list, and a filter
    /// that is present is not empty.
    pub open spec fn wf(self) -> bool {
        &&& self.table.wf()
        &&& self.color_index < PALETTE_COUNT
        &&& self.search_coin matches Some(coin) ==> coin.len() > 0
    }
}

/// What is asked of the caller after `action`.
pub open spec fn effect_of(action: Action) -> Effect {
    match action {
        Action::Refresh | Action::SearchCoin(_) => Effect::Fetch,
        Action::Render => Effect::Draw,
        Action::SearchFocus => Effect::OpenSearch,
        _ => Effect::Idle,
    }
}

/// The application state.
pub struct App {
    should_quit: bool,
    table: Table,
    colors: TableColors,
    color_index: usize,
    mode: Mode,
    search_coin: Option<String>,
}

impl View for App {
    type V = AppView;

    closed spec fn view(&self) -> AppView {
        AppView {
            table: self.table@,
            colors: self.colors,
            color_index: self.color_index as nat,
            mode: self.mode,
            search_coin: match self.search_coin {
                Some(coin) => Some(coin@),
                None => None,
            },
            should_quit: self.should_quit,
        }
    }
}

impl App {
    /// What holds of every `App` that the program holds.
    #[verifier::type_invariant]
    pub closed spec fn inv(self) -> bool {
        &&& self.table@.wf()
        &&& self.color_index < PALETTE_COUNT
        &&& self.search_coin matches Some(coin) ==> coin@.len() > 0
    }

    /// The state of every `App` that the program holds is well formed.
    pub proof fn lemma_inv_is_wf(self)
        requires
            self.inv(),
        ensures
            self@.wf(),
    {
    }

    /// The state at startup, from the provider's first answer.
    pub fn new(all: &[PriceRow]) -> (app: App)
        requires
            all@.len() * ITEM_HEIGHT <= usize::MAX,
        ensures
            app@ == AppView::initial(views(all@)),
            app@.wf(),
    {
        let rows = filter_rows(all, None);
        proof {
            lemma_select_rows_len(views(all@), None);
        }
        App {
            should_quit: false,
            table: Table::new(rows),
            colors: TableColors::new(palette(0)),
            color_index: 0,
            mode: Mode::Normal,
            search_coin: None,
        }
    }

    /// Replaces the table by the provider's answer to a refresh, filtered by
    /// the current search. The first row is selected, or none when the new
    /// table is empty; theme and mode stay.
    pub fn load(&mut self, all: &[PriceRow])
        requires
            all@.len() * ITEM_HEIGHT <= usize::MAX,
        ensures
            final(self)@ == old(self)@.loaded(views(all@)),
            final(self)@.wf(),
            final(self)@.table.selected == if final(self)@.table.rows.len() == 0 {
                None
            } else {
                Some(0nat)
            },
            final(self)@.table.scroll_length == scroll_extent(final(self)@.table.rows.len()),
    {
        proof {
            use_type_invariant(&*self);
        }
        let coin = self.search_coin.as_ref();
        let rows = filter_rows(all, coin);
        proof {
            lemma_select_rows_len(views(all@), coin_view(coin));
        }
        self.table = Table::new(rows);
    }

    /// Selects the next row, wrapping from the last to the first.
    pub fn next(&mut self)
        ensures
            final(self)@ == old(self)@.step(Action::NEXT),
            final(self)@.wf(),
            old(self)@.table.rows.len() == 0 ==> final(self)@.table.selected is None,
    {
        proof {
            use_type_invariant(&*self);
        }
        self.table.next();
    }

    /// Selects the previous row, wrapping from the first to the last.
    pub fn previous(&mut self)
        ensures
            final(self)@ == old(self)@.step(Action::PREVIOUS),
            final(self)@.wf(),
            old(self)@.table.rows.len() == 0 ==> final(self)@.table.selected is None,
    {
        proof {
            use_type_invariant(&*self);
        }
        self.table.previous();
    }

    /// Chooses the next palette of the cycle.
    pub fn next_color(&mut self)
        ensures
            final(self)@ == old(self)@.step(Action::NextColor),
            final(self)@.wf(),
    {
        proof {
            use_type_invariant(&*self);
        }
        self.color_index = (self.color_index + 1) % PALETTE_COUNT;
    }

    /// Chooses the previous palette of the cycle.
    pub fn previous_color(&mut self)
        ensures
            final(self)@ == old(self)@.step(Action::PreviousColor),
            final(self)@.wf(),
    {
        proof {
            use_type_invariant(&*self);
        }
        let count = PALETTE_COUNT;
        self.color_index = (self.color_index + count - 1) % count;
    }

    /// Takes the colours of the chosen palette.
    pub fn set_colors(&mut self)
        ensures
            final(self)@ == old(self)@.recolored(),
            final(self)@.wf(),
    {
        proof {
            use_type_invariant(&*self);
        }
        self.colors = TableColors::new(palette(self.color_index));
    }

    /// Applies one action and says what the caller is to do next. Only the
    /// provider's answer, given to `load`, changes the rows.
    pub fn update(&mut self, action: Action) -> (effect: Effect)
        ensures
            final(self)@ == old(self)@.step(action),
            effect == effect_of(action),
            final(self)@.wf(),
    {
        proof {
            use_type_invariant(&*self);
        }
        match action {
            Action::NEXT => {
                self.next();
                Effect::Idle
            },
            Action::PREVIOUS => {
                self.previous();
                Effect::Idle
            },
            Action::NextColor => {
                self.next_color();
                Effect::Idle
            },
            Action::PreviousColor => {
                self.previous_color();
                Effect::Idle
            },
            Action::SearchFocus => {
                self.mode = Mode::SearchEdit;
                Effect::OpenSearch
            },
            Action::Refresh => Effect::Fetch,
            Action::SearchCoin(coin) => {
                self.search_coin = if coin.as_str().is_empty() {
                    None
                } else {
                    Some(coin)
                };
                Effect::Fetch
            },
            Action::Quit => {
                self.should_quit = true;
                Effect::Idle
            },
            Action::Render => Effect::Draw,
            _ => Effect::Idle,
        }
    }

    /// Says where an event goes.
    pub fn route(&self, event: Event) -> (routed: Routed)
        ensures
            routed == self@.route(event),
    {
        match event {
            Event::Quit => Routed::Enqueue(Action::Quit),
            Event::Tick => Routed::Enqueue(Action::Tick),
            Event::Render => Routed::Enqueue(Action::Render),
            Event::Key(key) => {
                match self.mode {
                    Mode::SearchEdit => {
                        match key {
                            Key::Esc | Key::Enter => Routed::Commit,
                            _ => Routed::Edit(key),
                        }
                    },
                    Mode::Normal => Routed::Enqueue(get_action(event)),
                }
            },
            _ => Routed::Dropped,
        }
    }

    /// Closes the search box: back to normal mode, and the action that
    /// searches for the coin its first line names.
    pub fn commit_search(&mut self, line: &str) -> (action: Action)
        ensures
            final(self)@ == (AppView { mode: Mode::Normal, ..old(self)@ }),
            final(self)@.wf(),
            action matches Action::SearchCoin(coin) && coin@ == normalized(line@),
    {
        proof {
            use_type_invariant(&*self);
        }
        self.mode = Mode::Normal;
        Action::SearchCoin(normalize(line))
    }

    /// The table.
    pub fn table(&self) -> (table: &Table)
        ensures
            table@ == self@.table,
    {
        &self.table
    }

    /// The colours that `set_colors` took last.
    pub fn colors(&self) -> (colors: TableColors)
        ensures
            colors == self@.colors,
    {
        self.colors
    }

    /// The position of the chosen palette in the cycle.
    pub fn color_index(&self) -> (index: usize)
        ensures
            index == self@.color_index,
            index < PALETTE_COUNT,
    {
        proof {
            use_type_invariant(self);
        }
        self.color_index
    }

    /// Which handler sees the keys.
    pub fn mode(&self) -> (mode: Mode)
        ensures
            mode == self@.mode,
    {
        self.mode
    }

    /// The coin that the table is narrowed to, if any.
    pub fn search_coin(&self) -> (coin: Option<&String>)
        ensures
            coin_view(coin) == self@.search_coin,
    {
        self.search_coin.as_ref()
    }

    /// Whether the operator has asked to leave.
    pub fn should_quit(&self) -> (quit: bool)
        ensures
            quit == self@.should_quit,
    {
        self.should_quit
    }
}

} // verus!

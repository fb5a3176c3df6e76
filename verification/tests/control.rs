use coinboard::action::{Action, Event, Key};
use coinboard::app::{App, Effect, Mode};
use coinboard::control::{advance, commit, dispatch, Handoff};
use coinboard::queue::ActionQueue;
use coinboard::rows::PriceRow;

fn board(symbols: &[&str]) -> App {
    let rows: Vec<PriceRow> = symbols.iter().map(|symbol| PriceRow::new(symbol, "1")).collect();
    App::new(&rows)
}

fn emptied(queue: &mut ActionQueue) -> Vec<Action> {
    let mut actions = Vec::new();
    while let Some(action) = queue.pop() {
        actions.push(action);
    }
    actions
}

#[test]
fn new_queue_is_empty() {
    let mut queue = ActionQueue::new();
    assert_eq!(queue.pop(), None);
    assert_eq!(queue.pop(), None);
}

#[test]
fn queue_hands_out_in_the_order_of_arrival() {
    let mut queue = ActionQueue::new();
    queue.push(Action::NEXT);
    queue.push(Action::SearchCoin(String::from("BTC")));
    queue.push(Action::Quit);
    assert_eq!(queue.pop(), Some(Action::NEXT));
    queue.push(Action::Render);
    assert_eq!(queue.pop(), Some(Action::SearchCoin(String::from("BTC"))));
    assert_eq!(queue.pop(), Some(Action::Quit));
    assert_eq!(queue.pop(), Some(Action::Render));
    assert_eq!(queue.pop(), None);
    queue.push(Action::Tick);
    assert_eq!(queue.pop(), Some(Action::Tick));
    assert_eq!(queue.pop(), None);
}

#[test]
fn queue_holds_many_actions() {
    let mut queue = ActionQueue::new();
    for round in 0..1000 {
        queue.push(Action::SearchCoin(format!("{round}")));
    }
    for round in 0..1000 {
        assert_eq!(queue.pop(), Some(Action::SearchCoin(format!("{round}"))));
    }
    assert_eq!(queue.pop(), None);
}

#[test]
fn queues_are_apart() {
    let mut first = ActionQueue::new();
    let mut second = ActionQueue::new();
    first.push(Action::NEXT);
    assert_eq!(second.pop(), None);
    second.push(Action::PREVIOUS);
    assert_eq!(first.pop(), Some(Action::NEXT));
    assert_eq!(first.pop(), None);
    assert_eq!(second.pop(), Some(Action::PREVIOUS));
}

#[test]
fn dispatch_queues_the_action_of_a_key() {
    let app = board(&["AUSDT", "BUSDT"]);
    let mut queue = ActionQueue::new();
    assert_eq!(dispatch(&app, &mut queue, Event::Key(Key::Down)), Handoff::Nothing);
    assert_eq!(dispatch(&app, &mut queue, Event::Key(Key::Char('l'))), Handoff::Nothing);
    assert_eq!(dispatch(&app, &mut queue, Event::Key(Key::Char('x'))), Handoff::Nothing);
    assert_eq!(dispatch(&app, &mut queue, Event::Tick), Handoff::Nothing);
    assert_eq!(dispatch(&app, &mut queue, Event::Render), Handoff::Nothing);
    assert_eq!(dispatch(&app, &mut queue, Event::Quit), Handoff::Nothing);
    assert_eq!(
        emptied(&mut queue),
        vec![Action::NEXT, Action::NextColor, Action::Noop, Action::Tick, Action::Render, Action::Quit]
    );
}

#[test]
fn dispatch_drops_what_is_no_action() {
    let app = board(&["AUSDT"]);
    let mut queue = ActionQueue::new();
    assert_eq!(dispatch(&app, &mut queue, Event::Error), Handoff::Nothing);
    assert_eq!(dispatch(&app, &mut queue, Event::Other), Handoff::Nothing);
    assert_eq!(queue.pop(), None);
}

#[test]
fn dispatch_hands_keys_to_the_search_box() {
    let mut app = board(&["AUSDT"]);
    app.update(Action::SearchFocus);
    let mut queue = ActionQueue::new();
    assert_eq!(dispatch(&app, &mut queue, Event::Key(Key::Char('q'))), Handoff::Edit(Key::Char('q')));
    assert_eq!(dispatch(&app, &mut queue, Event::Key(Key::Up)), Handoff::Edit(Key::Up));
    assert_eq!(dispatch(&app, &mut queue, Event::Key(Key::Other)), Handoff::Edit(Key::Other));
    assert_eq!(dispatch(&app, &mut queue, Event::Key(Key::Enter)), Handoff::Commit);
    assert_eq!(dispatch(&app, &mut queue, Event::Key(Key::Esc)), Handoff::Commit);
    assert_eq!(queue.pop(), None);
    assert_eq!(dispatch(&app, &mut queue, Event::Render), Handoff::Nothing);
    assert_eq!(dispatch(&app, &mut queue, Event::Quit), Handoff::Nothing);
    assert_eq!(emptied(&mut queue), vec![Action::Render, Action::Quit]);
}

#[test]
fn commit_queues_the_search() {
    let mut app = board(&["AUSDT"]);
    app.update(Action::SearchFocus);
    let mut queue = ActionQueue::new();
    queue.push(Action::Tick);
    commit(&mut app, &mut queue, "  btc ");
    assert_eq!(app.mode(), Mode::Normal);
    assert_eq!(app.search_coin(), None);
    assert_eq!(emptied(&mut queue), vec![Action::Tick, Action::SearchCoin(String::from("BTC"))]);
    commit(&mut app, &mut queue, "");
    assert_eq!(emptied(&mut queue), vec![Action::SearchCoin(String::new())]);
}

#[test]
fn advance_on_an_empty_queue_is_idle() {
    let mut app = board(&["AUSDT", "BUSDT"]);
    let mut queue = ActionQueue::new();
    assert_eq!(advance(&mut app, &mut queue), Effect::Idle);
    assert_eq!(app.table().selected(), Some(0));
    assert_eq!(queue.pop(), None);
}

#[test]
fn advance_drains_idle_actions() {
    let mut app = board(&["AUSDT", "BUSDT", "CUSDT"]);
    let mut queue = ActionQueue::new();
    for action in [Action::NEXT, Action::NEXT, Action::NextColor, Action::Tick, Action::PREVIOUS, Action::Noop] {
        queue.push(action);
    }
    assert_eq!(advance(&mut app, &mut queue), Effect::Idle);
    assert_eq!(app.table().selected(), Some(1));
    assert_eq!(app.color_index(), 1);
    assert_eq!(queue.pop(), None);
}

#[test]
fn advance_stops_at_what_the_caller_must_do() {
    let mut app = board(&["AUSDT", "BUSDT", "CUSDT"]);
    let mut queue = ActionQueue::new();
    for action in [Action::NEXT, Action::Render, Action::NEXT, Action::Refresh, Action::Quit] {
        queue.push(action);
    }
    assert_eq!(advance(&mut app, &mut queue), Effect::Draw);
    assert_eq!(app.table().selected(), Some(1));
    assert_eq!(advance(&mut app, &mut queue), Effect::Fetch);
    assert_eq!(app.table().selected(), Some(2));
    assert!(!app.should_quit());
    assert_eq!(advance(&mut app, &mut queue), Effect::Idle);
    assert!(app.should_quit());
    assert_eq!(advance(&mut app, &mut queue), Effect::Idle);
    assert_eq!(queue.pop(), None);
}

#[test]
fn advance_applies_in_the_order_of_arrival() {
    let mut app = board(&["AUSDT", "BUSDT"]);
    let mut queue = ActionQueue::new();
    queue.push(Action::SearchCoin(String::from("A")));
    queue.push(Action::SearchCoin(String::from("B")));
    assert_eq!(advance(&mut app, &mut queue), Effect::Fetch);
    assert_eq!(app.search_coin(), Some(&String::from("A")));
    assert_eq!(advance(&mut app, &mut queue), Effect::Fetch);
    assert_eq!(app.search_coin(), Some(&String::from("B")));
    assert_eq!(advance(&mut app, &mut queue), Effect::Idle);
}

#[test]
fn advance_opens_the_search_box() {
    let mut app = board(&["AUSDT"]);
    let mut queue = ActionQueue::new();
    queue.push(Action::SearchFocus);
    queue.push(Action::NEXT);
    assert_eq!(advance(&mut app, &mut queue), Effect::OpenSearch);
    assert_eq!(app.mode(), Mode::SearchEdit);
    assert_eq!(emptied(&mut queue), vec![Action::NEXT]);
}

#[test]
fn a_session_from_keys_to_a_new_table() {
    let mut app = App::new(&[PriceRow::new("AAAUSDT", "1"), PriceRow::new("BBBUSDT", "2")]);
    let mut queue = ActionQueue::new();
    assert_eq!(app.table().selected(), Some(0));

    assert_eq!(dispatch(&app, &mut queue, Event::Key(Key::Char('j'))), Handoff::Nothing);
    assert_eq!(advance(&mut app, &mut queue), Effect::Idle);
    assert_eq!(app.table().selected(), Some(1));

    assert_eq!(dispatch(&app, &mut queue, Event::Key(Key::Char('s'))), Handoff::Nothing);
    assert_eq!(advance(&mut app, &mut queue), Effect::OpenSearch);
    assert_eq!(advance(&mut app, &mut queue), Effect::Idle);
    assert_eq!(app.mode(), Mode::SearchEdit);

    let mut typed = String::new();
    for letter in ['c', 'c', 'c'] {
        match dispatch(&app, &mut queue, Event::Key(Key::Char(letter))) {
            Handoff::Edit(Key::Char(c)) => typed.push(c),
            other => panic!("the key went to {:?}", other),
        }
        assert_eq!(advance(&mut app, &mut queue), Effect::Idle);
    }
    assert_eq!(dispatch(&app, &mut queue, Event::Render), Handoff::Nothing);
    assert_eq!(advance(&mut app, &mut queue), Effect::Draw);
    assert_eq!(advance(&mut app, &mut queue), Effect::Idle);

    assert_eq!(dispatch(&app, &mut queue, Event::Key(Key::Enter)), Handoff::Commit);
    commit(&mut app, &mut queue, &typed);
    assert_eq!(app.mode(), Mode::Normal);
    assert_eq!(advance(&mut app, &mut queue), Effect::Fetch);
    assert_eq!(app.search_coin(), Some(&String::from("CCC")));
    app.load(&[
        PriceRow::new("AAAUSDT", "1"),
        PriceRow::new("BBBUSDT", "2"),
        PriceRow::new("CCCUSDT", "3"),
    ]);
    assert_eq!(advance(&mut app, &mut queue), Effect::Idle);
    assert_eq!(app.table().rows().as_slice(), &[PriceRow::new("CCCUSDT", "3")]);
    assert_eq!(app.table().selected(), Some(0));

    assert_eq!(dispatch(&app, &mut queue, Event::Key(Key::Esc)), Handoff::Nothing);
    assert_eq!(advance(&mut app, &mut queue), Effect::Idle);
    assert!(app.should_quit());
}

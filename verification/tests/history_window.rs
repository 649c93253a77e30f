use ai_channel::history::HistoryWindow;
use ai_channel::message::{Role, RoleTaggedMessage};

fn entry(text: &str) -> RoleTaggedMessage {
    RoleTaggedMessage::user(text.to_string())
}

fn entries(texts: &[&str]) -> Vec<RoleTaggedMessage> {
    texts.iter().map(|text| entry(text)).collect()
}

#[test]
fn new_window_is_empty_and_keeps_its_thresholds() {
    let window = HistoryWindow::new(40, 30);
    assert!(window.is_empty());
    assert_eq!(window.len(), 0);
    assert_eq!(window.max_size(), 40);
    assert_eq!(window.min_size(), 30);
    assert_eq!(window.snapshot(), Vec::<RoleTaggedMessage>::new());
}

#[test]
fn batch_of_five_is_trimmed_to_the_two_newest() {
    let mut window = HistoryWindow::new(4, 2);
    window.append(entries(&["A", "B", "C", "D", "E"]));
    assert_eq!(window.snapshot(), entries(&["D", "E"]));
    assert_eq!(window.len(), 2);
}

#[test]
fn batch_within_max_size_is_kept_whole() {
    let mut window = HistoryWindow::new(4, 2);
    window.append(entries(&["A", "B", "C", "D"]));
    assert_eq!(window.snapshot(), entries(&["A", "B", "C", "D"]));
    assert_eq!(window.len(), 4);
}

#[test]
fn batches_keep_arrival_order_across_drains() {
    let mut window = HistoryWindow::new(4, 2);
    window.append(entries(&["A", "B"]));
    window.append(entries(&["C"]));
    assert_eq!(window.snapshot(), entries(&["A", "B", "C"]));
    window.append(entries(&["D", "E", "F"]));
    assert_eq!(window.snapshot(), entries(&["E", "F"]));
    window.append(entries(&["G", "H"]));
    assert_eq!(window.snapshot(), entries(&["E", "F", "G", "H"]));
    window.append(entries(&["I"]));
    assert_eq!(window.snapshot(), entries(&["H", "I"]));
}

#[test]
fn length_never_exceeds_max_size_after_append() {
    let mut window = HistoryWindow::new(5, 3);
    let mut label = 0;
    for size in [1usize, 2, 3, 4, 7, 1, 1, 1, 6, 2] {
        let before = window.len();
        let batch: Vec<RoleTaggedMessage> = (0..size)
            .map(|_| {
                label += 1;
                entry(&format!("m{label}"))
            })
            .collect();
        window.append(batch);
        assert!(window.len() <= 5);
        if before + size > 5 {
            assert_eq!(window.len(), 3);
        } else {
            assert_eq!(window.len(), before + size);
        }
        let newest = window.snapshot();
        assert_eq!(newest.last().unwrap().content, format!("m{label}"));
    }
}

#[test]
fn empty_batch_changes_nothing() {
    let mut window = HistoryWindow::new(4, 2);
    window.append(entries(&["A", "B", "C"]));
    window.append(Vec::new());
    assert_eq!(window.snapshot(), entries(&["A", "B", "C"]));
}

#[test]
fn min_size_above_length_removes_nothing() {
    let mut window = HistoryWindow::new(2, 10);
    window.append(entries(&["A", "B", "C"]));
    assert_eq!(window.snapshot(), entries(&["A", "B", "C"]));
    assert_eq!(window.len(), 3);
}

#[test]
fn min_size_zero_empties_the_window_when_trimming() {
    let mut window = HistoryWindow::new(2, 0);
    window.append(entries(&["A", "B", "C"]));
    assert!(window.is_empty());
}

#[test]
fn equal_thresholds_trim_to_that_size() {
    let mut window = HistoryWindow::new(3, 3);
    window.append(entries(&["A", "B", "C", "D", "E"]));
    assert_eq!(window.snapshot(), entries(&["C", "D", "E"]));
}

#[test]
fn push_adds_at_the_back_without_trimming() {
    let mut window = HistoryWindow::new(2, 1);
    window.append(entries(&["A", "B"]));
    window.push(RoleTaggedMessage::assistant("reply".to_string()));
    assert_eq!(window.len(), 3);
    let held = window.snapshot();
    assert_eq!(held[2].role, Role::Assistant);
    assert_eq!(held[2].content, "reply");
    window.append(entries(&["C"]));
    assert_eq!(window.snapshot(), entries(&["C"]));
}

#[test]
fn snapshot_leaves_the_window_as_it_is() {
    let mut window = HistoryWindow::new(4, 2);
    window.append(entries(&["A", "B"]));
    let first = window.snapshot();
    let second = window.snapshot();
    assert_eq!(first, second);
    assert_eq!(window.len(), 2);
}

#[test]
fn message_constructors_tag_the_role() {
    assert_eq!(RoleTaggedMessage::system("s".to_string()).role, Role::System);
    assert_eq!(RoleTaggedMessage::user("u".to_string()).role, Role::User);
    assert_eq!(RoleTaggedMessage::assistant("a".to_string()).role, Role::Assistant);
    let made = RoleTaggedMessage::new(Role::User, "text".to_string());
    assert_eq!(made, RoleTaggedMessage::user("text".to_string()));
    assert_eq!(made.clone(), made);
}

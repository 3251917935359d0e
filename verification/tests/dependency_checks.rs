use ralph::json::read_json;
use ralph::models::TaskList;
use ralph::tasks::task_list_from_record;

fn list(entries: &[(&str, &[&str])]) -> TaskList {
    let tasks: Vec<String> = entries
        .iter()
        .map(|(id, dependencies)| {
            let names: Vec<String> = dependencies.iter().map(|d| format!("\"{}\"", d)).collect();
            format!("{{\"id\": \"{}\", \"dependencies\": [{}]}}", id, names.join(", "))
        })
        .collect();
    let json = read_json(&format!("{{\"tasks\": [{}]}}", tasks.join(", "))).unwrap();
    task_list_from_record(&json, "demo", "now".to_string()).unwrap()
}

fn is_valid_order(list: &TaskList, order: &[usize]) -> bool {
    let mut seen = vec![false; list.tasks.len()];
    for &position in order {
        if position >= seen.len() || seen[position] {
            return false;
        }
        let waits = list.tasks.iter().enumerate().any(|(other, task)| {
            !seen[other] && list.tasks[position].dependencies.contains(&task.id)
        });
        if waits {
            return false;
        }
        seen[position] = true;
    }
    seen.iter().all(|s| *s)
}

#[test]
fn empty_list_is_in_order() {
    let list = list(&[]);
    assert_eq!(list.execution_order(), Some(vec![]));
    assert!(list.has_unique_ids());
    assert!(list.has_resolved_dependencies());
}

#[test]
fn tasks_without_dependencies_keep_their_order() {
    let list = list(&[("C", &[]), ("A", &[]), ("B", &[])]);
    assert_eq!(list.execution_order(), Some(vec![0, 1, 2]));
}

#[test]
fn dependencies_come_first() {
    let list = list(&[("T3", &["T2", "T1"]), ("T2", &["T1"]), ("T1", &[]), ("T4", &["T3"])]);
    let order = list.execution_order().unwrap();
    assert_eq!(order, vec![2, 1, 0, 3]);
    assert!(is_valid_order(&list, &order));
    assert!(list.has_unique_ids());
    assert!(list.has_resolved_dependencies());
}

#[test]
fn cycle_has_no_order() {
    assert_eq!(list(&[("A", &["B"]), ("B", &["A"])]).execution_order(), None);
    assert_eq!(list(&[("A", &["A"])]).execution_order(), None);
    assert_eq!(list(&[("X", &[]), ("A", &["B"]), ("B", &["C"]), ("C", &["A"]), ("Y", &["X"])]).execution_order(), None);
}

#[test]
fn dependency_that_names_no_task_holds_nothing_up() {
    let list = list(&[("A", &["missing"]), ("B", &["A", "gone"])]);
    assert_eq!(list.execution_order(), Some(vec![0, 1]));
    assert!(!list.has_resolved_dependencies());
    assert!(list.has_unique_ids());
}

#[test]
fn shared_identifier_is_waited_for_in_every_task_that_has_it() {
    let list = list(&[("B", &["A"]), ("A", &[]), ("A", &[]), ("C", &["B"])]);
    assert!(!list.has_unique_ids());
    let order = list.execution_order().unwrap();
    assert_eq!(order, vec![1, 2, 0, 3]);
    assert!(is_valid_order(&list, &order));
    let tied = list_with_shared_cycle();
    assert_eq!(tied.execution_order(), None);
}

fn list_with_shared_cycle() -> TaskList {
    list(&[("A", &[]), ("A", &["B"]), ("B", &["A"])])
}

#[test]
fn unique_ids_are_told_apart() {
    assert!(list(&[("A", &[]), ("B", &[]), ("a", &[])]).has_unique_ids());
    assert!(!list(&[("A", &[]), ("B", &[]), ("A", &[])]).has_unique_ids());
    assert!(!list(&[("", &[]), ("", &[])]).has_unique_ids());
}

#[test]
fn long_chain_is_ordered() {
    let ids: Vec<String> = (0..40).map(|i| format!("T{}", i)).collect();
    let entries: Vec<(String, Vec<String>)> = ids
        .iter()
        .enumerate()
        .map(|(i, id)| (id.clone(), if i + 1 < ids.len() { vec![ids[i + 1].clone()] } else { vec![] }))
        .collect();
    let borrowed: Vec<(&str, Vec<&str>)> =
        entries.iter().map(|(id, deps)| (id.as_str(), deps.iter().map(|d| d.as_str()).collect())).collect();
    let shaped: Vec<(&str, &[&str])> = borrowed.iter().map(|(id, deps)| (*id, deps.as_slice())).collect();
    let list = list(&shaped);
    let order = list.execution_order().unwrap();
    assert_eq!(order, (0..40).rev().collect::<Vec<usize>>());
    assert!(is_valid_order(&list, &order));
}

use surreal_chat::registry::{farewell, UserRegistry};

#[test]
fn register_get_and_replace() {
    let mut users: UserRegistry<u32> = UserRegistry::new();
    assert_eq!(users.len(), 0);
    assert_eq!(users.insert("ann".to_string(), 1), None);
    assert_eq!(users.insert("bob".to_string(), 2), None);
    assert_eq!(users.len(), 2);
    assert!(users.contains("ann"));
    assert_eq!(users.get("bob"), Some(&2));
    assert_eq!(users.insert("ann".to_string(), 3), Some(1));
    assert_eq!(users.len(), 2);
    assert_eq!(users.get("ann"), Some(&3));
    assert_eq!(users.get("carl"), None);
}

#[test]
fn remove_takes_only_that_user_out() {
    let mut users: UserRegistry<u32> = UserRegistry::new();
    users.insert("ann".to_string(), 1);
    users.insert("bob".to_string(), 2);
    assert_eq!(users.remove("ann"), Some(1));
    assert!(!users.contains("ann"));
    assert_eq!(users.get("bob"), Some(&2));
    assert_eq!(users.remove("ann"), None);
    assert_eq!(users.len(), 1);
}

#[test]
fn senders_reach_every_registered_user_once() {
    let mut users: UserRegistry<u32> = UserRegistry::new();
    users.insert("ann".to_string(), 1);
    users.insert("bob".to_string(), 2);
    users.insert("ann".to_string(), 5);
    let mut s: Vec<u32> = users.senders().into_iter().copied().collect();
    s.sort();
    assert_eq!(s, vec![2, 5]);
}

#[test]
fn connect_then_leave_restores_the_others() {
    let mut users: UserRegistry<u32> = UserRegistry::new();
    users.insert("ann".to_string(), 1);
    users.insert("bob".to_string(), 2);
    users.remove("bob");
    assert_eq!(users.len(), 1);
    assert_eq!(users.get("ann"), Some(&1));
}

#[test]
fn farewell_names_the_leaving_user() {
    assert_eq!(farewell("john"), "john left.");
    assert_eq!(farewell(""), " left.");
}

#[test]
fn a_registered_name_makes_the_registry_non_empty() {
    let mut users: UserRegistry<u32> = UserRegistry::new();
    users.insert("ann".to_string(), 1);
    assert!(users.len() > 0);
    assert_eq!(users.senders().len(), 1);
}

#[test]
fn senders_give_one_entry_per_user_even_when_senders_are_equal() {
    let mut users: UserRegistry<u32> = UserRegistry::new();
    users.insert("ann".to_string(), 1);
    users.insert("bob".to_string(), 1);
    users.insert("carl".to_string(), 2);
    let mut s: Vec<u32> = users.senders().into_iter().copied().collect();
    s.sort();
    assert_eq!(s, vec![1, 1, 2]);
}

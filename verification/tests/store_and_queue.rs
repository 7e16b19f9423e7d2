use task_service::messaging::messages::{Message, UserMessage};
use task_service::messaging::{message_attributes, queue_url_from_reply, QueueUrlCache, TextMap};
use task_service::repository::objects::task_dbo::TaskDbo;
use task_service::repository::storage::MemoryTaskRepos;
use task_service::repository::RepositoryError;

fn record(id: u128, title: &str) -> TaskDbo {
    TaskDbo { id, project_id: 7, title: title.to_string(), description: "d".to_string() }
}

#[test]
fn read_after_create_gives_the_task() {
    let mut store = MemoryTaskRepos::new();
    assert_eq!(store.create(record(1, "one")).ok(), Some(1));
    assert_eq!(store.create(record(2, "two")).ok(), Some(2));
    let t = store.get(1).ok().unwrap();
    assert_eq!(t.id, 1);
    assert_eq!(t.title, "one");
    assert_eq!(store.get(2).ok().unwrap().title, "two");
}

#[test]
fn read_of_unknown_task_names_it() {
    let store = MemoryTaskRepos::default();
    match store.get(5) {
        Err(RepositoryError::TaskNotFound(id)) => assert_eq!(id, 5),
        _ => panic!("an empty store holds no task"),
    }
}

#[test]
fn update_replaces_and_remove_forgets() {
    let mut store = MemoryTaskRepos::new();
    assert!(store.create(record(1, "one")).is_ok());
    assert!(store.update(record(1, "uno")).is_ok());
    assert_eq!(store.get(1).ok().unwrap().title, "uno");
    assert!(store.remove(1).is_ok());
    assert!(store.get(1).is_err());
    assert!(store.remove(1).is_ok());
}

#[test]
fn cache_answers_after_fetch() {
    let mut cache = QueueUrlCache::new();
    assert_eq!(cache.lookup("Customers"), None);
    let url = queue_url_from_reply(&mut cache, "Customers", Ok(Some("https://q/1".to_string())));
    assert_eq!(url.ok(), Some("https://q/1".to_string()));
    assert_eq!(cache.lookup("Customers"), Some("https://q/1".to_string()));
    assert_eq!(cache.lookup("Orders"), None);
    cache.remember("Customers".to_string(), "https://q/2".to_string());
    assert_eq!(cache.lookup("Customers"), Some("https://q/2".to_string()));
}

#[test]
fn missing_queue_address_is_an_error() {
    let mut cache = QueueUrlCache::new();
    let r = queue_url_from_reply(&mut cache, "Customers", Ok(None));
    assert_eq!(r.err(), Some("queue_url not found for Customers".to_string()));
    assert_eq!(cache.lookup("Customers"), None);
    let r = queue_url_from_reply(&mut cache, "Customers", Err("timeout".to_string()));
    assert_eq!(r.err(), Some("timeout".to_string()));
}

#[test]
fn user_message_hands_attributes_out_once() {
    let mut m = UserMessage::new("hello".to_string());
    assert_eq!(UserMessage::QUEUE_NAME, "Customers");
    assert!(m.attributes().is_none());
    let mut attrs = TextMap::new();
    attrs.remember("k".to_string(), "v".to_string());
    m.attributes = Some(attrs);
    let handed = m.attributes().unwrap();
    assert_eq!(handed.lookup("k"), Some("v".to_string()));
    assert!(m.attributes().is_none());
    assert_eq!(m.body(), "hello");
}

#[test]
fn attributes_are_sent_as_strings_unless_empty() {
    assert!(message_attributes(None).is_none());
    assert!(message_attributes(Some(TextMap::new())).is_none());
    let mut attrs = TextMap::new();
    attrs.remember("a".to_string(), "0".to_string());
    attrs.remember("a".to_string(), "1".to_string());
    attrs.remember("b".to_string(), "2".to_string());
    let mut v = message_attributes(Some(attrs)).unwrap();
    v.sort_by(|x, y| x.0.cmp(&y.0));
    assert_eq!(v.len(), 2);
    assert_eq!((v[0].0.as_str(), v[0].1.data_type.as_str(), v[0].1.string_value.as_str()), ("a", "String", "1"));
    assert_eq!((v[1].0.as_str(), v[1].1.data_type.as_str(), v[1].1.string_value.as_str()), ("b", "String", "2"));
}

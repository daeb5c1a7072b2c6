use lagrappe::plugin_manager::{AppExtendManagerImpl, LoadAttempt, LoadError, Plugin};
use libloading::Library;

struct Greeter {
    name: String,
    greeting: &'static str,
}

impl Greeter {
    fn boxed(name: &str, greeting: &'static str) -> Box<dyn Plugin> {
        Box::new(Greeter { name: name.to_string(), greeting })
    }
}

impl Plugin for Greeter {
    fn name(&self) -> &str {
        &self.name
    }
}

struct Tagged {
    tag: u32,
}

impl Plugin for Tagged {
    fn name(&self) -> &str {
        "tagged"
    }
}

fn this_process() -> Library {
    Library::from(libloading::os::unix::Library::this())
}

#[test]
fn new_manager_is_empty() {
    let manager: AppExtendManagerImpl = AppExtendManagerImpl::new();
    assert_eq!(manager.extend_count(), 0);
    assert_eq!(manager.library_count(), 0);
    assert!(!manager.is_loaded("sample"));
    assert!(manager.select("sample").is_none());
}

#[test]
fn constructed_instance_is_registered_under_its_name() {
    let mut manager: AppExtendManagerImpl = AppExtendManagerImpl::new();
    let outcome = manager.load_extend(LoadAttempt::Constructed {
        library: this_process(),
        extend: Greeter::boxed("sample", "hello"),
    });
    assert_eq!(outcome, Ok("sample".to_string()));
    assert_eq!(manager.extend_count(), 1);
    assert_eq!(manager.library_count(), 1);
    assert!(manager.is_loaded("sample"));
    assert!(!manager.is_loaded("other"));
    let handle = manager.select("sample").unwrap();
    assert_eq!(handle.name(), "sample");
}

#[test]
fn missing_symbol_keeps_library_and_registers_nothing() {
    let mut manager: AppExtendManagerImpl = AppExtendManagerImpl::new();
    manager
        .load_extend(LoadAttempt::Constructed {
            library: this_process(),
            extend: Greeter::boxed("first", "hi"),
        })
        .unwrap();
    let outcome = manager.load_extend(LoadAttempt::SymbolNotFound {
        library: this_process(),
        message: "undefined symbol".to_string(),
    });
    assert_eq!(outcome, Err(LoadError::SymbolNotFound("undefined symbol".to_string())));
    assert_eq!(manager.extend_count(), 1);
    assert!(manager.is_loaded("first"));
    assert_eq!(manager.library_count(), 2);
}

#[test]
fn null_constructor_keeps_library_and_registers_nothing() {
    let mut manager: AppExtendManagerImpl = AppExtendManagerImpl::new();
    let outcome = manager.load_extend(LoadAttempt::NullConstructor { library: this_process() });
    assert_eq!(outcome, Err(LoadError::NullConstructor));
    assert_eq!(manager.extend_count(), 0);
    assert_eq!(manager.library_count(), 1);
}

#[test]
fn failed_open_changes_nothing() {
    let mut manager: AppExtendManagerImpl = AppExtendManagerImpl::new();
    let outcome = manager.load_extend(LoadAttempt::LibraryLoadFailed {
        message: "no such file".to_string(),
    });
    assert_eq!(outcome, Err(LoadError::LibraryLoadFailed("no such file".to_string())));
    assert_eq!(manager.extend_count(), 0);
    assert_eq!(manager.library_count(), 0);
}

#[test]
fn last_load_of_a_name_wins() {
    let mut manager: AppExtendManagerImpl<Tagged> = AppExtendManagerImpl::new();
    let first = manager.load_extend(LoadAttempt::Constructed {
        library: this_process(),
        extend: Box::new(Tagged { tag: 1 }),
    });
    let second = manager.load_extend(LoadAttempt::Constructed {
        library: this_process(),
        extend: Box::new(Tagged { tag: 2 }),
    });
    assert_eq!(first, Ok("tagged".to_string()));
    assert_eq!(second, Ok("tagged".to_string()));
    assert_eq!(manager.extend_count(), 1);
    assert_eq!(manager.library_count(), 2);
    assert_eq!(manager.select("tagged").unwrap().tag, 2);
}

#[test]
fn register_adds_without_a_library() {
    let mut manager: AppExtendManagerImpl = AppExtendManagerImpl::new();
    manager.register("alias".to_string(), Greeter::boxed("sample", "hello"));
    assert_eq!(manager.extend_count(), 1);
    assert_eq!(manager.library_count(), 0);
    assert!(manager.is_loaded("alias"));
    assert!(!manager.is_loaded("sample"));
    assert_eq!(manager.select("alias").unwrap().name(), "sample");
}

#[test]
fn select_hands_out_shared_handles() {
    let mut manager: AppExtendManagerImpl<Greeter> = AppExtendManagerImpl::new();
    manager
        .load_extend(LoadAttempt::Constructed {
            library: this_process(),
            extend: Box::new(Greeter { name: "sample".to_string(), greeting: "hello" }),
        })
        .unwrap();
    let one = manager.select("sample").unwrap();
    let two = manager.select("sample").unwrap();
    assert!(std::sync::Arc::ptr_eq(&one, &two));
    assert_eq!(one.greeting, "hello");
    assert_eq!(manager.extend_count(), 1);
}

#[test]
fn load_errors_read_as_lines() {
    assert_eq!(
        LoadError::LibraryLoadFailed("no such file".to_string()).message(),
        "Failed to load library: no such file"
    );
    assert_eq!(
        LoadError::SymbolNotFound("undefined symbol".to_string()).message(),
        "Failed to load symbol: undefined symbol"
    );
    assert_eq!(LoadError::NullConstructor.message(), "Constructor returned null pointer.");
}

use mail_composition::context::{BuilderContext, CompositeBuilderContext, FileLoader, RunElsewhere};

/// A file loader answering from a fixed in-memory table.
#[derive(Clone, Debug, PartialEq, Eq, Hash, Default)]
struct TableLoader {
    entries: Vec<(String, Vec<u8>)>,
}

impl FileLoader for TableLoader {
    fn load_file(&self, path: &str) -> Result<Vec<u8>, String> {
        for (name, bytes) in &self.entries {
            if name == path {
                return Ok(bytes.clone());
            }
        }
        Err(format!("no such file: {}", path))
    }
}

/// Runs the task in place; callers may not rely on more than eventual
/// resolution anyway.
#[derive(Clone, Debug, PartialEq, Eq, Hash, Default)]
struct InPlace;

impl RunElsewhere for InPlace {
    fn execute<T: Send + 'static, F: FnOnce() -> T + Send + 'static>(&self, task: F) -> T {
        task()
    }
}

fn through_builder_context<C: BuilderContext>(context: &C, path: &str) -> Result<Vec<u8>, String> {
    context.load_file(path)
}

#[test]
fn composite_context_holds_both_capabilities() {
    let loader = TableLoader { entries: vec![("logo.png".to_string(), vec![1, 2, 3])] };
    let context = CompositeBuilderContext::new(loader.clone(), InPlace);
    assert_eq!(context.file_loader, loader);
    assert_eq!(context.elsewhere, InPlace);
}

#[test]
fn composite_context_delegates_file_loading() {
    let loader = TableLoader { entries: vec![("logo.png".to_string(), vec![1, 2, 3])] };
    let context = CompositeBuilderContext::new(loader, InPlace);
    assert_eq!(context.load_file("logo.png").unwrap(), vec![1, 2, 3]);
    assert!(context.load_file("missing.png").is_err());
}

#[test]
fn composite_context_delegates_execution() {
    let context = CompositeBuilderContext::new(TableLoader::default(), InPlace);
    let six_times_seven = context.execute(|| 6 * 7);
    assert_eq!(six_times_seven, 42);
}

#[test]
fn composite_context_is_a_builder_context() {
    let loader = TableLoader { entries: vec![("a".to_string(), vec![9])] };
    let context = CompositeBuilderContext::new(loader, InPlace);
    assert_eq!(through_builder_context(&context, "a").unwrap(), vec![9]);
}

use method_taskifier::taskifier::args::TaskifierArgs;
use method_taskifier::taskifier::codegen::{
    channeled_task_execution_arm, client_function_head, executor_impl_body, expansion_items, task_builder,
    task_execution_arm, task_structs, task_variant, CodePiece, WorkerSig,
};

/// Writes pieces as text, fragments as `#n` and literals quoted.
fn show(pieces: &[CodePiece]) -> String {
    pieces
        .iter()
        .map(|piece| match piece {
            CodePiece::Text(text) => text.clone(),
            CodePiece::StrLit(content) => format!("{content:?}"),
            CodePiece::Fragment(index) => format!("#{index}"),
        })
        .collect::<Vec<_>>()
        .join(" ")
}

fn divide() -> WorkerSig {
    WorkerSig {
        name: "divide".to_string(),
        ident: 10,
        is_async: false,
        qualifiers: 11,
        generics: 12,
        where_clause: 13,
        params: vec![(14, 15)],
        output: Some(16),
    }
}

fn async_mul() -> WorkerSig {
    WorkerSig {
        name: "async_mul".to_string(),
        ident: 20,
        is_async: true,
        qualifiers: 21,
        generics: 22,
        where_clause: 23,
        params: vec![(24, 25), (26, 27)],
        output: None,
    }
}

#[test]
fn task_structs_with_and_without_serde() {
    assert_eq!(show(&task_structs(&divide(), false)), "pub struct DivideParams { pub #15 , } pub struct DivideResult (pub #16 );");
    assert_eq!(
        show(&task_structs(&async_mul(), true)),
        "#[derive(::serde::Serialize, ::serde::Deserialize)] pub struct AsyncMulParams { pub #25 , pub #27 , } \
         #[derive(::serde::Serialize, ::serde::Deserialize)] pub struct AsyncMulResult (pub () );"
    );
}

#[test]
fn variant_and_builder() {
    assert_eq!(show(&task_variant(&divide())), "Divide ( DivideParams )");
    assert_eq!(
        show(&task_builder(&async_mul())),
        "pub fn #20 ( #25 , #27 ) -> self::Task { self::Task:: AsyncMul ( self:: AsyncMulParams { #24 , #26 } ) }"
    );
}

#[test]
fn client_head_drops_async_and_takes_self() {
    assert_eq!(
        show(&client_function_head(&async_mul())),
        "pub #21 fn #20 #22 (&self , #25 , #27 ) #23 -> impl ::std::future::Future<Output = Result< () , ::method_taskifier::AllWorkersDroppedError>>"
    );
}

#[test]
fn execution_arms_await_async_methods_only() {
    let arm = show(&task_execution_arm(1, "self", &divide()));
    assert_eq!(
        arm,
        "#1 ::Task:: Divide ( #1 :: DivideParams { #14 }) => { ::log::trace!( \"Executing channeled task = {}::self::Divide\" , module_path!()); let ret = self. #10 ( #14 ) ; #1 ::TaskResult:: Divide ( #1 :: DivideResult (ret)) }"
    );
    let arm = show(&channeled_task_execution_arm(1, "crate::tasks", &async_mul()));
    assert!(arm.contains("let ret = self. #20 ( #24 , #26 ) .await ;"));
    assert!(arm.contains("\"Sending channeled task result = {}::crate::tasks::AsyncMul\""));
}

#[test]
fn executor_methods_are_async_as_planned() {
    let sync_body = show(&executor_impl_body(1, "self", &vec![divide()], false));
    assert!(sync_body.starts_with("pub fn execute_task(&mut self, task:"));
    assert!(sync_body.contains("pub async fn execute_channeled_task_from_queue"));
    assert!(sync_body.contains("pub async fn execute_channeled_tasks_from_queue_until_clients_dropped"));
    assert!(sync_body.contains("pub fn execute_remaining_channeled_tasks_from_queue"));
    let async_body = show(&executor_impl_body(1, "self", &vec![divide(), async_mul()], true));
    assert!(async_body.starts_with("pub async fn execute_task(&mut self, task:"));
    assert!(async_body.contains("pub async fn execute_remaining_channeled_tasks_from_queue"));
    assert!(async_body.contains("while self.try_execute_channeled_task_from_queue(receiver) .await ? {} Ok(()) }"));
}

#[test]
fn whole_expansion() {
    let args = TaskifierArgs { task_definitions_module_path: 1, client_name: 2, use_serde: true, debug_mode: false };
    let pieces = expansion_items(&args, "self", &vec![divide(), async_mul()], 3, 4, &vec![5]);
    let text = show(&pieces);
    assert!(text.starts_with("#3 #4 { pub async fn execute_task"));
    assert!(text.contains("#[derive(::serde::Serialize, ::serde::Deserialize)] pub enum Task { Divide ( DivideParams ) , AsyncMul ( AsyncMulParams ) }"));
    assert!(text.contains("pub enum ChanneledTask { Divide { params: DivideParams , result_sender: ::tokio::sync::oneshot::Sender< DivideResult >, }"));
    assert!(!text.contains("#[derive(::serde::Serialize, ::serde::Deserialize)] pub enum ChanneledTask"));
    assert!(text.contains("pub fn as_async_mul_result (&self) -> Option<&self:: AsyncMulResult >"));
    assert!(text.contains("#[derive(Clone)] pub struct #2"));
    assert!(text.ends_with("#5 }"));
}

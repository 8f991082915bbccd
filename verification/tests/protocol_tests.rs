use keyra::protocol::binpro::server::{next_chunk, ChunkStep, CHUNK_LEN, MAX_KEY_LENGTH, MAX_VALUE_LENGTH};
use keyra::protocol::grpc::handler::{DataGrpc, GrpcRefusal, GrpcStore};
use keyra::protocol::http::handler::{not_found_body, GetData, GetReply, SetData};
use keyra::shared::storage::{Storage, Types};

#[test]
fn binpro_constants() {
    assert_eq!(MAX_KEY_LENGTH, 1000);
    assert_eq!(MAX_VALUE_LENGTH, 1000);
    assert_eq!(CHUNK_LEN, 4);
}

#[test]
fn binpro_chunk_steps() {
    assert_eq!(next_chunk(0), ChunkStep::Stop);
    assert_eq!(next_chunk(1), ChunkStep::Refill);
    assert_eq!(next_chunk(3), ChunkStep::Refill);
    assert_eq!(next_chunk(4), ChunkStep::Take);
    assert_eq!(next_chunk(4096), ChunkStep::Take);
}

#[test]
fn grpc_store_read_after_write() {
    let mut store = GrpcStore::new();
    assert_eq!(keyra::protocol::grpc::handler::get(&store, &"k".to_string()), None);
    keyra::protocol::grpc::handler::set(&mut store, "k".to_string(), vec![8, 1]);
    assert_eq!(keyra::protocol::grpc::handler::get(&store, &"k".to_string()), Some(vec![8, 1]));
    keyra::protocol::grpc::handler::set(&mut store, "k".to_string(), vec![2]);
    keyra::protocol::grpc::handler::set(&mut store, "j".to_string(), vec![3]);
    assert_eq!(keyra::protocol::grpc::handler::get(&store, &"k".to_string()), Some(vec![2]));
    assert_eq!(keyra::protocol::grpc::handler::get(&store, &"j".to_string()), Some(vec![3]));
}

#[test]
fn grpc_service_answers() {
    let service = DataGrpc::default();
    let mut store = GrpcStore::new();
    assert_eq!(service.serve_get(&store, &"k".to_string()), Err(GrpcRefusal::NotFound));
    assert_eq!(service.serve_set(&mut store, "k".to_string(), None), Err(GrpcRefusal::MissingValue));
    assert_eq!(service.serve_get(&store, &"k".to_string()), Err(GrpcRefusal::NotFound));
    assert_eq!(service.serve_set(&mut store, "k".to_string(), Some(vec![1, 2, 3])), Ok(()));
    assert_eq!(service.serve_get(&store, &"k".to_string()), Ok(vec![1, 2, 3]));
}

#[test]
fn grpc_refusal_messages() {
    assert_eq!(GrpcRefusal::NotFound.message(), "not found".to_string());
    assert_eq!(GrpcRefusal::MissingValue.message(), "test".to_string());
}

#[test]
fn http_set_then_get() {
    let mut storage = Storage::new();
    let reply = keyra::protocol::http::handler::get(&storage, &GetData { key: "k".to_string() });
    assert!(matches!(reply, GetReply::NotFound));
    assert_eq!(reply.status(), 404);
    assert_eq!(not_found_body(), "data not found".to_string());
    let body = keyra::protocol::http::handler::set(
        &mut storage,
        SetData { key: "k".to_string(), value: Types::U64(77) },
    );
    assert_eq!(body, "success".to_string());
    let reply = keyra::protocol::http::handler::get(&storage, &GetData { key: "k".to_string() });
    assert_eq!(reply.status(), 200);
    match reply {
        GetReply::Found(v) => assert!(matches!(*v, Types::U64(77))),
        GetReply::NotFound => panic!("the value was set"),
    }
}

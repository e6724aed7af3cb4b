use ravix::blog::{check_comment_id, delete_step, edit_step, like_step, to_stored_instant, unlike_step, AppError, Comment, CommentController, CommentRepository, CommentService, CommentStore, CreateCommentDto, UpdateCommentDto};
use ravix::posts::{CreatePostDto, PostStore, UpdatePostDto};
use ravix::response::{Answer, ReplyBody};
use ravix::users::Claims;

fn comment(svc: &mut CommentService<CommentStore>, post: &str, author: &str, body: &str) -> String {
    svc.create(post, author, CreateCommentDto { body: body.to_string() }).ok().unwrap().id
}

#[test]
fn test_create_comment() {
    let mut svc = CommentService::new(CommentStore::new());
    let c = svc.create("p1", "alice", CreateCommentDto { body: "This is a comment".to_string() }).ok().unwrap();
    assert_eq!(c.body, "This is a comment");
    assert_eq!(c.like_count, 0);
    assert_eq!(c.author_id, "alice");
    assert_eq!(c.created_at, c.updated_at);
    let listed = svc.list_for_post("p1").ok().unwrap();
    assert_eq!(listed.len(), 1);
    assert_eq!(listed[0].id, c.id);
    assert!(svc.list_for_post("p2").ok().unwrap().is_empty());
}

#[test]
fn test_like_comment() {
    let mut svc = CommentService::new(CommentStore::new());
    let id = comment(&mut svc, "p", "like", "This is a comment");
    let c = svc.like("like", &id).ok().unwrap();
    assert_eq!(c.like_count, 1);
    assert_eq!(c.liked_by, vec!["like".to_string()]);
}

#[test]
fn test_unlike_comment() {
    let mut svc = CommentService::new(CommentStore::new());
    let id = comment(&mut svc, "p", "unlike", "This is a comment");
    svc.like("unlike", &id).ok().unwrap();
    let c = svc.unlike("unlike", &id).ok().unwrap();
    assert_eq!(c.like_count, 0);
    assert!(c.liked_by.is_empty());
}

#[test]
fn test_double_like_idempotent() {
    let mut svc = CommentService::new(CommentStore::new());
    let id = comment(&mut svc, "p", "double_like", "This is a comment");
    svc.like("double_like", &id).ok().unwrap();
    let c = svc.like("double_like", &id).ok().unwrap();
    assert_eq!(c.like_count, 1);
}

#[test]
fn test_edit_comment_not_owner() {
    let mut svc = CommentService::new(CommentStore::new());
    let id = comment(&mut svc, "p", "edit_a", "User A comment");
    let err = svc.update("edit_b", &id, UpdateCommentDto { body: "Hacked!".to_string() }).err().unwrap();
    assert!(matches!(err, AppError::Forbidden(_)));
    assert_eq!(err.into_response().status, 403);
    assert_eq!(svc.list_for_post("p").ok().unwrap()[0].body, "User A comment");
}

#[test]
fn test_delete_comment_owner() {
    let mut svc = CommentService::new(CommentStore::new());
    let id = comment(&mut svc, "p", "delete_comment", "To delete");
    assert!(svc.delete("delete_comment", &id).is_ok());
    assert!(svc.list_for_post("p").ok().unwrap().is_empty());
}

#[test]
fn owner_edits_comment() {
    let mut svc = CommentService::new(CommentStore::new());
    let id = comment(&mut svc, "p", "alice", "draft");
    let c = svc.update("alice", &id, UpdateCommentDto { body: "final".to_string() }).ok().unwrap();
    assert_eq!(c.body, "final");
}

#[test]
fn non_owner_cannot_delete_and_unknown_comments_are_not_found() {
    let mut svc = CommentService::new(CommentStore::new());
    let id = comment(&mut svc, "p", "alice", "mine");
    let err = svc.delete("bob", &id).err().unwrap();
    let reply = err.into_response();
    assert_eq!(reply.status, 403);
    assert!(matches!(reply.body, ReplyBody::ErrorMessage(ref m) if m == "Not the owner of this comment"));
    let missing = svc.like("bob", "0123456789abcdef01234567").err().unwrap();
    assert!(matches!(missing, AppError::NotFound(ref m) if m == "Comment not found"));
    assert_eq!(missing.into_response().status, 404);
    assert!(svc.unlike("bob", "0123456789ABCDEF01234567").is_err());
    let malformed = svc.like("bob", "no-such-id").err().unwrap();
    assert!(matches!(malformed, AppError::NotFound(ref m) if m == "Invalid comment id"));
    let malformed = svc.update("alice", "0123456789abcdef0123456", UpdateCommentDto { body: "x".to_string() }).err().unwrap();
    assert!(matches!(malformed, AppError::NotFound(ref m) if m == "Invalid comment id"));
    let malformed = svc.delete("alice", "0123456789abcdef0123456g").err().unwrap();
    assert!(matches!(malformed, AppError::NotFound(ref m) if m == "Invalid comment id"));
    assert_eq!(svc.list_for_post("p").ok().unwrap().len(), 1);
}

#[test]
fn unlike_without_like_changes_nothing() {
    let mut svc = CommentService::new(CommentStore::new());
    let id = comment(&mut svc, "p", "alice", "x");
    svc.like("bob", &id).ok().unwrap();
    let c = svc.unlike("carol", &id).ok().unwrap();
    assert_eq!(c.like_count, 1);
    assert_eq!(c.liked_by, vec!["bob".to_string()]);
}

#[test]
fn post_store_edits_only_given_fields() {
    let id = "65a1f0c2b3d4e5f6a7b8c9d0";
    let mut posts = PostStore::new();
    let p = posts.save_with_identity(id.to_string(), "alice", CreatePostDto { title: "T".to_string(), body: "B".to_string() }, 10_123).ok().unwrap();
    assert_eq!(p.updated_at, 10_123);
    assert_eq!(posts.find_by_id(id).ok().unwrap().unwrap().created_at, 10_000);
    assert!(posts.save_with_identity(id.to_string(), "bob", CreatePostDto { title: "x".to_string(), body: "y".to_string() }, 11_000).is_err());
    let same = posts.update(id, "alice", UpdatePostDto { title: None, body: None }, 20_000).ok().unwrap().unwrap();
    assert_eq!(same.updated_at, 10_000);
    assert_eq!(same.title, "T");
    let edited = posts.update(id, "alice", UpdatePostDto { title: Some("T2".to_string()), body: None }, 30_999).ok().unwrap().unwrap();
    assert_eq!(edited.title, "T2");
    assert_eq!(edited.body, "B");
    assert_eq!(edited.updated_at, 30_000);
    assert!(posts.update(id, "bob", UpdatePostDto { title: Some("H".to_string()), body: None }, 40_000).ok().unwrap().is_none());
    assert_eq!(posts.find_by_id(id).ok().unwrap().unwrap().title, "T2");
    assert!(!posts.delete(id, "bob").ok().unwrap());
    assert!(posts.delete(id, "alice").ok().unwrap());
    assert!(posts.find_all().is_empty());
}

#[test]
fn stored_instants_round_down_to_the_millisecond() {
    assert_eq!(to_stored_instant(1_234_567), 1_234_000);
    assert_eq!(to_stored_instant(5_000), 5_000);
    assert_eq!(to_stored_instant(0), 0);
    assert_eq!(to_stored_instant(-1), -1_000);
    assert_eq!(to_stored_instant(-1_000), -1_000);
    assert_eq!(to_stored_instant(-1_001), -2_000);
    assert_eq!(to_stored_instant(i64::MIN), -9_223_372_036_854_775_000);
    assert_eq!(to_stored_instant(i64::MAX), 9_223_372_036_854_775_000);
}

#[test]
fn saved_comment_reads_back_to_the_millisecond() {
    let mut store = CommentStore::new();
    let c = store.save_with_identity("65a1f0c2b3d4e5f6a7b8c9d1".to_string(), "p", "alice", CreateCommentDto { body: "hi".to_string() }, 1_700_000_123_456).ok().unwrap();
    assert_eq!(c.created_at, 1_700_000_123_456);
    let back = store.find_by_id(&c.id).ok().unwrap().unwrap();
    assert_eq!(back.created_at, 1_700_000_123_000);
    assert_eq!(back.updated_at, 1_700_000_123_000);
    assert_eq!(back.body, "hi");
    let edited = store.update(&c.id, "alice", UpdateCommentDto { body: "yo".to_string() }, 1_700_000_999_999).ok().unwrap().unwrap();
    assert_eq!(edited.updated_at, 1_700_000_999_000);
    assert_eq!(edited.created_at, 1_700_000_123_000);
}

#[test]
fn fresh_service_creates_comments() {
    let mut svc = CommentService::new(CommentStore::new());
    for _ in 0..3 {
        assert!(svc.create("p", "a", CreateCommentDto { body: "b".to_string() }).is_ok());
    }
}

#[test]
fn post_store_refuses_malformed_ids_and_names_new_posts() {
    let mut posts = PostStore::new();
    let p = posts.save("alice", CreatePostDto { title: "T".to_string(), body: "B".to_string() }).ok().unwrap();
    assert_eq!(p.id.len(), 24);
    assert!(p.id.chars().all(|c| c.is_ascii_hexdigit()));
    assert_eq!(p.created_at, p.updated_at);
    assert_eq!(posts.find_by_id(&p.id).ok().unwrap().unwrap().title, "T");
    for bad in ["1", "", "65a1f0c2b3d4e5f6a7b8c9d", "65a1f0c2b3d4e5f6a7b8c9dz"] {
        let e = posts.find_by_id(bad).err().unwrap();
        assert!(matches!(e, AppError::NotFound(ref m) if m == "Invalid post id"));
        assert!(posts.update(bad, "alice", UpdatePostDto { title: None, body: None }, 1).is_err());
        assert!(posts.delete(bad, "alice").is_err());
    }
    assert_eq!(posts.find_all().len(), 1);
}

#[test]
fn post_dtos_are_validated() {
    assert!(CreatePostDto { title: "Test Post".to_string(), body: "Test Body".to_string() }.validate().is_ok());
    let f = CreatePostDto { title: "".to_string(), body: "".to_string() }.validate().err().unwrap();
    assert_eq!(f.fields, vec!["title", "body"]);
    assert!(UpdatePostDto { title: None, body: None }.validate().is_ok());
    let g = UpdatePostDto { title: None, body: Some("".to_string()) }.validate().err().unwrap();
    assert_eq!(g.fields, vec!["body"]);
}

fn claims(sub: &str) -> Claims {
    Claims { sub: sub.to_string(), username: sub.to_string(), exp: 0 }
}

#[test]
fn comment_controller_answers() {
    let mut ctrl = CommentController::new(CommentService::new(CommentStore::new()));
    let created = ctrl.create_comment("p1", &claims("alice"), CreateCommentDto { body: "hello".to_string() });
    let id = match created {
        Answer::Data { status, data } => {
            assert_eq!(status, 201);
            assert_eq!(data.author_id, "alice");
            assert_eq!(data.post_id, "p1");
            assert_eq!(data.id.len(), 24);
            data.id
        }
        Answer::Reply(_) => panic!("create refused"),
    };
    match ctrl.list_comments("p1") {
        Answer::Data { status, data } => {
            assert_eq!(status, 200);
            assert_eq!(data.len(), 1);
        }
        Answer::Reply(_) => panic!("list refused"),
    }
    match ctrl.update_comment(&id, &claims("bob"), UpdateCommentDto { body: "x".to_string() }) {
        Answer::Reply(r) => {
            assert_eq!(r.status, 403);
            assert!(matches!(r.body, ReplyBody::ErrorMessage(ref m) if m == "Not the owner of this comment"));
        }
        Answer::Data { .. } => panic!("a stranger edited the comment"),
    }
    match ctrl.like_comment(&id, &claims("bob")) {
        Answer::Data { status, data } => {
            assert_eq!(status, 200);
            assert_eq!(data.like_count, 1);
        }
        Answer::Reply(_) => panic!("like refused"),
    }
    match ctrl.unlike_comment("ffffffffffffffffffffffff", &claims("bob")) {
        Answer::Reply(r) => {
            assert_eq!(r.status, 404);
            assert!(matches!(r.body, ReplyBody::ErrorMessage(ref m) if m == "Comment not found"));
        }
        Answer::Data { .. } => panic!("unliked a missing comment"),
    }
    match ctrl.unlike_comment("missing", &claims("bob")) {
        Answer::Reply(r) => {
            assert_eq!(r.status, 404);
            assert!(matches!(r.body, ReplyBody::ErrorMessage(ref m) if m == "Invalid comment id"));
        }
        Answer::Data { .. } => panic!("unliked a malformed id"),
    }
    assert_eq!(ctrl.delete_comment("missing", &claims("alice")).status, 404);
    assert_eq!(ctrl.delete_comment(&id, &claims("bob")).status, 403);
    let gone = ctrl.delete_comment(&id, &claims("alice"));
    assert_eq!(gone.status, 204);
    assert!(matches!(gone.body, ReplyBody::Empty));
    match ctrl.list_comments("p1") {
        Answer::Data { data, .. } => assert!(data.is_empty()),
        Answer::Reply(_) => panic!("list refused"),
    }
}

#[test]
fn likes_form_a_set_of_users() {
    let mut svc = CommentService::new(CommentStore::new());
    let id = comment(&mut svc, "p", "alice", "x");
    svc.like("bob", &id).ok().unwrap();
    svc.like("carol", &id).ok().unwrap();
    svc.like("bob", &id).ok().unwrap();
    let c = svc.unlike("bob", &id).ok().unwrap();
    assert_eq!(c.liked_by, vec!["carol".to_string()]);
    assert_eq!(c.like_count, 1);
    let c = svc.unlike("bob", &id).ok().unwrap();
    assert_eq!(c.like_count, 1);
}

fn fetched(liked_by: &[&str], count: u64) -> Comment {
    Comment {
        id: "65a1f0c2b3d4e5f6a7b8c9d2".to_string(),
        post_id: "p".to_string(),
        author_id: "alice".to_string(),
        body: "b".to_string(),
        like_count: count,
        liked_by: liked_by.iter().map(|s| s.to_string()).collect(),
        created_at: 5_000,
        updated_at: 5_000,
    }
}

#[test]
fn steps_on_fetched_comments() {
    let c = like_step(Some(fetched(&["bob"], 1)), "carol").ok().unwrap();
    assert_eq!(c.liked_by, vec!["bob".to_string(), "carol".to_string()]);
    assert_eq!(c.like_count, 2);
    let c = like_step(Some(fetched(&["bob"], 1)), "bob").ok().unwrap();
    assert_eq!(c.like_count, 1);
    let c = like_step(Some(fetched(&["bob"], 9)), "bob").ok().unwrap();
    assert_eq!(c.like_count, 1);
    assert!(matches!(like_step(None, "bob"), Err(AppError::NotFound(ref m)) if m == "Comment not found"));
    let c = unlike_step(Some(fetched(&["bob", "carol"], 2)), "bob").ok().unwrap();
    assert_eq!(c.liked_by, vec!["carol".to_string()]);
    assert_eq!(c.like_count, 1);
    let e = edit_step(Some(fetched(&[], 0)), "alice", "new".to_string(), 7_654_321).ok().unwrap();
    assert_eq!(e.body, "new");
    assert_eq!(e.updated_at, 7_654_000);
    assert_eq!(e.created_at, 5_000);
    assert!(matches!(edit_step(Some(fetched(&[], 0)), "bob", "x".to_string(), 1), Err(AppError::Forbidden(_))));
    assert!(matches!(edit_step(None, "alice", "x".to_string(), 1), Err(AppError::Forbidden(_))));
    assert!(delete_step(&Some(fetched(&[], 0)), "alice").is_ok());
    assert!(delete_step(&Some(fetched(&[], 0)), "bob").is_err());
    assert!(delete_step(&None, "alice").is_err());
    assert!(check_comment_id("65a1f0c2b3d4e5f6a7b8c9d2").is_ok());
    assert!(matches!(check_comment_id("x"), Err(AppError::NotFound(ref m)) if m == "Invalid comment id"));
}

fn like_through<R: CommentRepository>(repo: &mut R, id: &str, user: &str) -> Option<Comment> {
    repo.add_like(id, user).ok().unwrap()
}

#[test]
fn store_serves_as_comment_repository() {
    let mut store = CommentStore::new();
    let c = CommentRepository::save(&mut store, "p", "alice", CreateCommentDto { body: "hi".to_string() }).ok().unwrap();
    assert_eq!(CommentRepository::find_by_post(&store, "p").len(), 1);
    let liked = like_through(&mut store, &c.id, "bob").unwrap();
    assert_eq!(liked.like_count, 1);
    let again = like_through(&mut store, &c.id, "bob").unwrap();
    assert_eq!(again.like_count, 1);
    let unliked = CommentRepository::remove_like(&mut store, &c.id, "bob").ok().unwrap().unwrap();
    assert_eq!(unliked.like_count, 0);
    assert!(unliked.liked_by.is_empty());
    assert!(like_through(&mut store, "65a1f0c2b3d4e5f6a7b8c9d1", "bob").is_none());
    assert_eq!(CommentRepository::delete(&mut store, &c.id, "bob").ok().unwrap(), false);
    assert_eq!(CommentRepository::delete(&mut store, &c.id, "alice").ok().unwrap(), true);
    assert!(CommentRepository::find_by_id(&store, &c.id).ok().unwrap().is_none());
}

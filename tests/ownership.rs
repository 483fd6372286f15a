use beryllium::lifetime::{Handle, LifetimeError, ResourceKind, ResourceTree};

#[test]
fn second_token_is_refused() {
    let mut t = ResourceTree::new();
    let tok = t.init_token().unwrap();
    assert_eq!(t.init_token(), Err(LifetimeError::AlreadyInitialized));
    assert_eq!(t.release(tok), Ok(()));
    assert!(t.init_token().is_ok());
}

#[test]
fn release_happens_once() {
    let mut t = ResourceTree::new();
    let tok = t.init_token().unwrap();
    let win = t.acquire(tok, ResourceKind::Window).unwrap();
    assert_eq!(t.release(win), Ok(()));
    assert_eq!(t.release(win), Err(LifetimeError::StaleHandle));
    assert_eq!(t.release(Handle { index: 99 }), Err(LifetimeError::StaleHandle));
}

#[test]
fn children_are_released_first() {
    let mut t = ResourceTree::new();
    let tok = t.init_token().unwrap();
    let win = t.acquire(tok, ResourceKind::Window).unwrap();
    let ren = t.acquire(win, ResourceKind::Renderer).unwrap();
    let tex = t.acquire(ren, ResourceKind::Texture).unwrap();
    assert_eq!(t.release(tok), Err(LifetimeError::HasLiveChildren));
    assert_eq!(t.release(win), Err(LifetimeError::HasLiveChildren));
    assert_eq!(t.release(ren), Err(LifetimeError::HasLiveChildren));
    assert_eq!(t.release(tex), Ok(()));
    assert!(t.is_live(ren));
    assert!(t.is_live(win));
    assert_eq!(t.release(ren), Ok(()));
    assert_eq!(t.release(win), Ok(()));
    assert_eq!(t.release(tok), Ok(()));
    assert!(!t.is_live(tok));
}

#[test]
fn kinds_hang_off_the_right_parent() {
    let mut t = ResourceTree::new();
    let tok = t.init_token().unwrap();
    assert_eq!(t.acquire(tok, ResourceKind::Renderer), Err(LifetimeError::WrongParent));
    assert_eq!(t.acquire(tok, ResourceKind::Token), Err(LifetimeError::WrongParent));
    let win = t.acquire(tok, ResourceKind::Window).unwrap();
    assert_eq!(t.acquire(win, ResourceKind::Texture), Err(LifetimeError::WrongParent));
    for k in [ResourceKind::Surface, ResourceKind::Controller, ResourceKind::AudioQueue, ResourceKind::Library] {
        assert!(t.acquire(tok, k).is_ok());
    }
}

#[test]
fn acquire_from_released_parent_is_stale() {
    let mut t = ResourceTree::new();
    let tok = t.init_token().unwrap();
    let win = t.acquire(tok, ResourceKind::Window).unwrap();
    t.release(win).unwrap();
    assert_eq!(t.acquire(win, ResourceKind::Renderer), Err(LifetimeError::StaleHandle));
}

#[test]
fn renderer_uses_only_its_own_textures() {
    let mut t = ResourceTree::new();
    let tok = t.init_token().unwrap();
    let win = t.acquire(tok, ResourceKind::Window).unwrap();
    let r1 = t.acquire(win, ResourceKind::Renderer).unwrap();
    let r2 = t.acquire(win, ResourceKind::Renderer).unwrap();
    let tex = t.acquire(r1, ResourceKind::Texture).unwrap();
    assert!(t.owns(r1, tex));
    assert!(!t.owns(r2, tex));
}

#[test]
fn shutdown_releases_leaves_first() {
    let mut t = ResourceTree::new();
    let tok = t.init_token().unwrap();
    let win = t.acquire(tok, ResourceKind::Window).unwrap();
    let surf = t.acquire(tok, ResourceKind::Surface).unwrap();
    let ren = t.acquire(win, ResourceKind::Renderer).unwrap();
    let tex = t.acquire(ren, ResourceKind::Texture).unwrap();
    t.release(surf).unwrap();
    let order = t.shutdown();
    assert_eq!(order, vec![tex, ren, win, tok]);
    assert_eq!(t.len(), 5);
    for h in [tok, win, surf, ren, tex] {
        assert!(!t.is_live(h));
    }
    assert!(t.init_token().is_ok());
    assert_eq!(ResourceTree::new().shutdown(), vec![]);
}

//! The portlet context: an optional payload filled in later, or
//! established as absent once the scope's priming runs.

use sync_ssr::coordinator::CoReadyCoordinator;
use sync_ssr::portlet::PortletCtx;

#[test]
fn portlet_resolves_none_without_writer() {
    let mut coord = CoReadyCoordinator::new();
    let ctx: PortletCtx<String> = PortletCtx::new(&mut coord);
    assert!(ctx.try_read(&coord).is_none());
    coord.notify();
    // the wait is over and there is nothing to show
    assert_eq!(ctx.try_read(&coord), Some(&None));
}

#[test]
fn portlet_set_payload_delivers() {
    let mut coord = CoReadyCoordinator::new();
    let mut ctx: PortletCtx<String> = PortletCtx::new(&mut coord);
    let ws = ctx.write_only(&mut coord);
    coord.notify();
    assert!(ctx.try_read(&coord).is_none());
    ctx.set(&ws, &mut coord, Some("Hello world!".to_string()));
    assert_eq!(
        ctx.try_read(&coord),
        Some(&Some("Hello world!".to_string()))
    );
    ws.release(&mut coord);
}

#[test]
fn portlet_set_none_shows_nothing() {
    let mut coord = CoReadyCoordinator::new();
    let mut ctx: PortletCtx<u64> = PortletCtx::new(&mut coord);
    let ws = ctx.write_only(&mut coord);
    // the producer fetched and decided there is nothing to show
    ctx.set(&ws, &mut coord, None);
    coord.notify();
    assert_eq!(ctx.try_read(&coord), Some(&None));
    ws.release(&mut coord);
}

#[test]
fn portlet_clear_resets_payload() {
    let mut coord = CoReadyCoordinator::new();
    let mut ctx: PortletCtx<String> = PortletCtx::new(&mut coord);
    let ws = ctx.write_only(&mut coord);
    ctx.set(&ws, &mut coord, Some("shown".to_string()));
    ws.release(&mut coord);
    assert_eq!(ctx.read_now(), &Some("shown".to_string()));
    ctx.clear();
    assert_eq!(ctx.read_now(), &None);
    // the slot's completion is untouched by the bypass write
    assert_eq!(ctx.try_read(&coord), Some(&None));
}

#[test]
fn portlet_update_flow() {
    let mut coord = CoReadyCoordinator::new();
    let mut ctx: PortletCtx<Vec<String>> = PortletCtx::new(&mut coord);
    let ws = ctx.write_only(&mut coord);
    // the update pattern: fetch, apply the change to the current payload,
    // store the result back
    let mut payload = ctx.read_now().clone().unwrap_or_default();
    payload.push("crumb".to_string());
    ctx.set(&ws, &mut coord, Some(payload));
    ws.release(&mut coord);
    assert_eq!(ctx.try_read(&coord), Some(&Some(vec!["crumb".to_string()])));
}

#[test]
fn portlet_subscription_follows_slot() {
    let mut coord = CoReadyCoordinator::new();
    let first: PortletCtx<u64> = PortletCtx::new(&mut coord);
    let second: PortletCtx<u64> = PortletCtx::new(&mut coord);
    let sub_first = first.subscribe(&coord);
    let sub_second = second.subscribe(&coord);
    let ws = second.write_only(&mut coord);
    coord.notify();
    // completing the second slot leaves the first one's wait untouched
    assert!(sub_first.wait_over(&coord));
    assert!(!sub_second.wait_over(&coord));
    ws.notify(&mut coord);
    assert!(sub_second.wait_over(&coord));
    ws.release(&mut coord);
}

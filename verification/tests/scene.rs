use ready_paint::registry::{get_res, get_res_mut, return_res, Registry, Resource};
use ready_paint::scene::{Paint, Ready, Scene};
use std::cell::RefCell;
use std::rc::Rc;

#[derive(Clone)]
struct Ctx {
    log: Rc<RefCell<Vec<u64>>>,
}

fn ctx() -> Ctx {
    Ctx { log: Rc::new(RefCell::new(Vec::new())) }
}

#[derive(Debug, PartialEq, Clone)]
enum Val {
    Empty,
    Tracer {
        id: u64,
    },
    Counter {
        value: i32,
    },
}

const X: u64 = 10;
const Y: u64 = 20;
const Z: u64 = 30;
const COUNTER: u64 = 77;

impl Default for Val {
    fn default() -> Self {
        Val::Empty
    }
}

impl Ready<Ctx> for Val {
    fn ready(&mut self, data: &mut Registry<Val>, gfx: &Ctx) {
        match self {
            Val::Tracer { id } => {
                gfx.log.borrow_mut().push(*id);
            }
            Val::Counter { value } => {
                return_res(data, Resource::new(COUNTER, Val::Counter { value: *value }));
            }
            Val::Empty => {}
        }
    }
}

impl Paint<Ctx> for Val {
    fn paint(key: u64, data: &mut Registry<Val>, gfx: &Ctx) {
        if key == COUNTER {
            if let Val::Counter { value } = get_res_mut(data, COUNTER).unwrap() {
                *value += 1;
            }
        } else {
            gfx.log.borrow_mut().push(key);
        }
    }
}

#[test]
fn scene_keeps_its_name() {
    let scene: Scene<Val> = Scene::new("intro".to_string());
    assert_eq!(scene.get_name(), "intro");
}

#[test]
fn setup_entries_run_in_registration_order() {
    let ctx = ctx();
    let mut scene: Scene<Val> = Scene::new("trace".to_string());
    scene.add_ready(Resource::new(X, Val::Tracer { id: X }));
    scene.add_ready(Resource::new(Y, Val::Tracer { id: Y }));
    scene.add_ready(Resource::new(Z, Val::Tracer { id: Z }));

    scene.ready(&ctx);

    assert_eq!(*ctx.log.borrow(), vec![X, Y, Z]);
}

#[test]
fn execution_entries_run_in_registration_order_every_tick() {
    let ctx = ctx();
    let mut scene: Scene<Val> = Scene::new("trace".to_string());
    scene.add_paint(X);
    scene.add_paint(Y);
    scene.add_paint(Z);

    scene.paint(&ctx);
    scene.paint(&ctx);

    assert_eq!(*ctx.log.borrow(), vec![X, Y, Z, X, Y, Z]);
}

#[test]
fn one_incrementing_entry_three_ticks_counts_to_three() {
    let ctx = ctx();
    let mut scene: Scene<Val> = Scene::new("count".to_string());
    scene.add_ready(Resource::new(COUNTER, Val::Counter { value: 0 }));
    scene.add_paint(COUNTER);

    scene.ready(&ctx);
    scene.paint(&ctx);
    scene.paint(&ctx);
    scene.paint(&ctx);

    let v = get_res(scene.registry(), COUNTER).unwrap();
    assert_eq!(*v, Val::Counter { value: 3 });
}

#[test]
fn an_empty_scene_runs_both_phases_without_effect() {
    let ctx = ctx();
    let mut scene: Scene<Val> = Scene::new("empty".to_string());
    scene.ready(&ctx);
    scene.paint(&ctx);
    assert!(ctx.log.borrow().is_empty());
}

#[test]
fn add_ready_files_a_placeholder_at_once() {
    let mut scene: Scene<Val> = Scene::new("ph".to_string());
    scene.add_ready(Resource::new(COUNTER, Val::Counter { value: 5 }));

    // Before the setup phase has run, the slot already exists, holding the
    // payload type's default value rather than the registered one.
    let v = get_res(scene.registry(), COUNTER).unwrap();
    assert_eq!(*v, Val::Empty);
}

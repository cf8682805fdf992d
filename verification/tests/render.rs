use ready_paint::error::Error;
use ready_paint::registry::{get_res, get_res_mut, return_res, Registry, Resource};
use ready_paint::scene::{Paint, Queue, Ready, Scene};
use ready_paint::{Render, RenderEntry};
use std::cell::RefCell;
use std::rc::Rc;

#[derive(Clone)]
struct Ctx {
    log: Rc<RefCell<Vec<String>>>,
}

#[derive(Debug, PartialEq, Clone)]
enum Val {
    Empty,
    Counter {
        value: i32,
    },
    Greeter {
        name: String,
    },
}

const COUNTER: u64 = 1;
const GREETER: u64 = 2;

impl Default for Val {
    fn default() -> Self {
        Val::Empty
    }
}

impl Ready<Ctx> for Val {
    fn ready(&mut self, data: &mut Registry<Val>, gfx: &Ctx) {
        match self {
            Val::Counter { value } => {
                return_res(data, Resource::new(COUNTER, Val::Counter { value: *value }));
            }
            Val::Greeter { name } => {
                gfx.log.borrow_mut().push(name.clone());
            }
            Val::Empty => {}
        }
    }
}

impl Paint<Ctx> for Val {
    fn paint(key: u64, data: &mut Registry<Val>, _gfx: &Ctx) {
        if key == COUNTER {
            if let Val::Counter { value } = get_res_mut(data, COUNTER).unwrap() {
                *value += 1;
            }
        }
    }
}

struct CounterScene;

impl Queue for CounterScene {
    type G = Ctx;
    type V = Val;

    fn introduce(scene: &mut Scene<Val>) {
        scene.add_ready(Resource::new(COUNTER, Val::Counter { value: 0 }));
        scene.add_paint(COUNTER);
    }
}

struct FirstGreeter;

impl Queue for FirstGreeter {
    type G = Ctx;
    type V = Val;

    fn introduce(scene: &mut Scene<Val>) {
        scene.add_ready(Resource::new(
            GREETER,
            Val::Greeter { name: "S1".to_string() },
        ));
    }
}

struct SecondGreeter;

impl Queue for SecondGreeter {
    type G = Ctx;
    type V = Val;

    fn introduce(scene: &mut Scene<Val>) {
        scene.add_ready(Resource::new(
            GREETER,
            Val::Greeter { name: "S2".to_string() },
        ));
    }
}

#[test]
fn driver_refuses_to_run_without_a_context() {
    let mut render: Render<Ctx, Val> = Render::new();
    render.add_scene::<CounterScene>("main".to_string());

    assert!(matches!(render.ready(), Err(Error::DriverNotReady)));
    assert!(matches!(render.paint(), Err(Error::DriverNotReady)));
}

#[test]
fn a_driver_with_a_context_and_no_scenes_runs_fine() {
    let log = Rc::new(RefCell::new(Vec::new()));
    let mut render: Render<Ctx, Val> = Render::new();
    render.entry = RenderEntry::Ready(Ctx { log });

    assert!(render.ready().is_ok());
    assert!(render.paint().is_ok());
}

#[test]
fn end_to_end_counter_reaches_three() {
    let log = Rc::new(RefCell::new(Vec::new()));
    let mut render: Render<Ctx, Val> = Render::new();
    render.add_scene::<CounterScene>("main".to_string());
    render.entry = RenderEntry::Ready(Ctx { log });

    render.ready().unwrap();
    render.paint().unwrap();
    render.paint().unwrap();
    render.paint().unwrap();

    let v = get_res(render.scenes[0].registry(), COUNTER).unwrap();
    assert_eq!(*v, Val::Counter { value: 3 });
}

#[test]
fn scenes_are_set_up_in_attachment_order() {
    let log = Rc::new(RefCell::new(Vec::new()));
    let mut render: Render<Ctx, Val> = Render::new();
    render
        .add_scene::<FirstGreeter>("S1".to_string())
        .add_scene::<SecondGreeter>("S2".to_string());
    render.entry = RenderEntry::Ready(Ctx { log: log.clone() });

    render.ready().unwrap();

    assert_eq!(*log.borrow(), vec!["S1".to_string(), "S2".to_string()]);
    assert_eq!(render.scenes[0].get_name(), "S1");
    assert_eq!(render.scenes[1].get_name(), "S2");
}

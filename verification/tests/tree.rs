use plinth::scene::{Scene, SceneNode, SceneVisitorMut};
use plinth::tree::NodeTree;
use plinth::visuals::{Canvas, Image, Panel};

#[test]
fn add_and_get_nodes() {
    let mut tree = NodeTree::<u32>::new();
    assert!(tree.root_id().is_none());
    let (root, previous) = tree.set_root(1);
    assert_eq!(previous, None);
    let a = tree.add_child(root, 2);
    let b = tree.add_child(a, 3);
    assert_eq!(tree.get_node(root), Some(&1));
    assert_eq!(tree.get_node(a), Some(&2));
    assert_eq!(tree.get_node(b), Some(&3));
    assert_eq!(tree.root(), Some(&1));
    assert_eq!(tree.root_id(), Some(root));
    if let Some(n) = tree.get_node_mut(b) {
        *n = 30;
    }
    assert_eq!(tree.get_node(b), Some(&30));
}

#[test]
fn removing_a_node_removes_its_subtree() {
    let mut tree = NodeTree::<u32>::new();
    let (root, _) = tree.set_root(1);
    let a = tree.add_child(root, 2);
    let b = tree.add_child(a, 3);
    let c = tree.add_child(root, 4);
    assert_eq!(tree.remove_node(a), Some(2));
    assert_eq!(tree.get_node(a), None);
    assert_eq!(tree.get_node(b), None);
    assert_eq!(tree.get_node(c), Some(&4));
    // An expired identifier stays expired.
    assert_eq!(tree.remove_node(a), None);
}

#[test]
fn a_new_root_expires_every_earlier_identifier() {
    let mut tree = NodeTree::<u32>::new();
    let (root, _) = tree.set_root(1);
    let a = tree.add_child(root, 2);
    let (new_root, previous) = tree.set_root(10);
    assert_eq!(previous, Some(1));
    assert_eq!(tree.get_node(root), None);
    assert_eq!(tree.get_node(a), None);
    assert_eq!(tree.get_node(new_root), Some(&10));
    assert_ne!(root, new_root);
}

#[test]
fn scene_nodes_are_read_by_kind() {
    let mut scene = Scene::new();
    let (root, _) = scene.set_root(SceneNode::Panel(Panel {}));
    let canvas = scene.add_child(root, SceneNode::Canvas(Canvas {}));
    assert!(scene.get::<Canvas>(canvas).is_some());
    assert!(scene.get::<Image>(canvas).is_none());
    assert!(scene.root::<Panel>().is_some());
    assert!(matches!(scene.remove_node(canvas), Some(SceneNode::Canvas(_))));
    assert!(scene.get_node(canvas).is_none());
}

struct CountMut {
    visits: u32,
}

impl SceneVisitorMut for CountMut {
    fn visit_canvas_mut(&mut self, _canvas: &mut Canvas) {
        self.visits += 1;
    }
    fn visit_image_mut(&mut self, _image: &mut Image) {
        self.visits += 1;
    }
    fn visit_text_mut(&mut self, _text: &mut plinth::visuals::Text) {
        self.visits += 1;
    }
    fn visit_panel_mut(&mut self, _panel: &mut Panel) {
        self.visits += 1;
    }
}

#[test]
fn scene_walk_mut_visits_every_live_node_and_keeps_them() {
    let mut scene = Scene::new();
    let (root, _) = scene.set_root(SceneNode::Panel(Panel {}));
    let a = scene.add_child(root, SceneNode::Canvas(Canvas {}));
    let _ = scene.add_child(root, SceneNode::Image(Image {}));
    scene.remove_node(a);
    let mut count = CountMut { visits: 0 };
    scene.walk_mut(&mut count);
    assert_eq!(count.visits, 2);
    assert!(scene.root::<Panel>().is_some());
}

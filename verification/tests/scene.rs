use solar::scene::Body;
use solar::scene::SceneError;
use solar::scene::Solar;
use solar::scene::Worlds;

fn sum(own: &u64, parent: Option<&u64>) -> u64 {
    match parent {
        Some(above) => above * 10 + own,
        None => *own,
    }
}

#[test]
fn new_scene_is_empty() {
    let solar: Solar<u64> = Solar::new();
    assert_eq!(solar.len(), 0);
    assert_eq!(solar.update(sum).len(), 0);
}

#[test]
fn bodies_are_named_in_order_of_registration() {
    let mut solar = Solar::new();
    assert_eq!(solar.add_body("sun", None), Ok(0));
    assert_eq!(solar.add_body("earth", Some(0)), Ok(1));
    assert_eq!(solar.add_body("moon", Some(1)), Ok(2));
    assert_eq!(solar.add_body("backdrop", None), Ok(3));
    assert_eq!(solar.len(), 4);
}

#[test]
fn body_keeps_parameters_and_parent() {
    let mut solar = Solar::new();
    let star = solar.add_body(11u64, None).unwrap();
    let planet = solar.add_body(22u64, Some(star)).unwrap();
    let moon = solar.add_body(33u64, Some(planet)).unwrap();
    let found: &Body<u64> = solar.body(star).unwrap();
    assert_eq!(found.parameters, 11);
    assert_eq!(found.parent, None);
    let found = solar.body(planet).unwrap();
    assert_eq!(found.parameters, 22);
    assert_eq!(found.parent, Some(star));
    let found = solar.body(moon).unwrap();
    assert_eq!(found.parameters, 33);
    assert_eq!(found.parent, Some(planet));
}

#[test]
fn unregistered_parent_is_invalid() {
    let mut solar = Solar::new();
    assert_eq!(solar.add_body(1u64, Some(0)), Err(SceneError::InvalidParent));
    assert_eq!(solar.len(), 0);
    assert_eq!(solar.add_body(1u64, None), Ok(0));
    assert_eq!(solar.add_body(2u64, Some(7)), Err(SceneError::InvalidParent));
    assert_eq!(solar.add_body(2u64, Some(usize::MAX)), Err(SceneError::InvalidParent));
    assert_eq!(solar.len(), 1);
    assert_eq!(solar.body(0).unwrap().parameters, 1);
    assert_eq!(solar.add_body(2u64, Some(0)), Ok(1));
}

#[test]
fn body_cannot_be_its_own_parent() {
    let mut solar = Solar::new();
    solar.add_body(1u64, None).unwrap();
    let next = solar.len();
    assert_eq!(solar.add_body(2u64, Some(next)), Err(SceneError::InvalidParent));
    assert_eq!(solar.len(), 1);
}

#[test]
fn unknown_body_is_reported() {
    let mut solar = Solar::new();
    assert!(matches!(solar.body(0), Err(SceneError::UnknownBody)));
    solar.add_body(1u64, None).unwrap();
    assert!(solar.body(0).is_ok());
    assert!(matches!(solar.body(1), Err(SceneError::UnknownBody)));
    assert!(matches!(solar.body(usize::MAX), Err(SceneError::UnknownBody)));
}

#[test]
fn unknown_world_transform_is_reported() {
    let mut solar = Solar::new();
    solar.add_body(1u64, None).unwrap();
    solar.add_body(2u64, Some(0)).unwrap();
    let worlds = solar.update(sum);
    assert_eq!(worlds.len(), 2);
    assert_eq!(worlds.world_transform(1), Ok(&12));
    assert_eq!(worlds.world_transform(2), Err(SceneError::UnknownBody));
    assert_eq!(worlds.world_transform(usize::MAX), Err(SceneError::UnknownBody));
}

#[test]
fn before_any_update_there_is_no_world_transform() {
    let worlds: Worlds<u64> = Worlds::new();
    assert_eq!(worlds.len(), 0);
    assert_eq!(worlds.world_transform(0), Err(SceneError::UnknownBody));
}

#[test]
fn errors_are_told_apart() {
    assert_ne!(SceneError::InvalidParent, SceneError::CycleDetected);
    assert_ne!(SceneError::InvalidParent, SceneError::UnknownBody);
    assert_ne!(SceneError::CycleDetected, SceneError::UnknownBody);
}

#[test]
fn update_hands_each_body_the_world_of_its_parent() {
    let mut solar = Solar::new();
    let sun = solar.add_body(1u64, None).unwrap();
    let earth = solar.add_body(2u64, Some(sun)).unwrap();
    let moon = solar.add_body(3u64, Some(earth)).unwrap();
    let mars = solar.add_body(4u64, Some(sun)).unwrap();
    let phobos = solar.add_body(5u64, Some(mars)).unwrap();
    let backdrop = solar.add_body(6u64, None).unwrap();
    let worlds = solar.update(sum);
    assert_eq!(worlds.len(), 6);
    assert_eq!(worlds.world_transform(sun), Ok(&1));
    assert_eq!(worlds.world_transform(earth), Ok(&12));
    assert_eq!(worlds.world_transform(moon), Ok(&123));
    assert_eq!(worlds.world_transform(mars), Ok(&14));
    assert_eq!(worlds.world_transform(phobos), Ok(&145));
    assert_eq!(worlds.world_transform(backdrop), Ok(&6));
}

#[test]
fn update_calls_local_once_for_each_body_and_parents_first() {
    let mut solar = Solar::new();
    let mut id: usize = 0;
    while id < 40 {
        let parent = if id % 5 == 0 { None } else { Some((id * 7 + 3) % id) };
        assert_eq!(solar.add_body(id, parent), Ok(id));
        id += 1;
    }
    let visited = std::cell::RefCell::new(Vec::new());
    let worlds = solar.update(|own: &usize, parent: Option<&Vec<usize>>| {
        visited.borrow_mut().push(*own);
        let mut path = match parent {
            Some(above) => above.clone(),
            None => Vec::new(),
        };
        path.push(*own);
        path
    });
    let visited = visited.into_inner();
    assert_eq!(visited.len(), 40);
    let mut body = 0;
    while body < 40 {
        assert_eq!(visited.iter().filter(|seen| **seen == body).count(), 1);
        let path = worlds.world_transform(body).unwrap();
        assert_eq!(path.last(), Some(&body));
        let mut step = path.len() - 1;
        while step > 0 {
            assert_eq!(solar.body(path[step]).unwrap().parent, Some(path[step - 1]));
            step -= 1;
        }
        assert_eq!(solar.body(path[0]).unwrap().parent, None);
        if let Some(parent) = solar.body(body).unwrap().parent {
            let parent_at = visited.iter().position(|seen| *seen == parent).unwrap();
            let child_at = visited.iter().position(|seen| *seen == body).unwrap();
            assert!(parent_at < child_at);
        }
        body += 1;
    }
}

#[test]
fn update_leaves_nothing_behind() {
    let mut solar = Solar::new();
    solar.add_body(1u64, None).unwrap();
    solar.add_body(2u64, Some(0)).unwrap();
    solar.add_body(3u64, Some(1)).unwrap();
    let first = solar.update(sum);
    let other = solar.update(|own: &u64, parent: Option<&u64>| own + parent.copied().unwrap_or(0));
    let second = solar.update(sum);
    assert_eq!(other.world_transform(2), Ok(&6));
    let mut id = 0;
    while id < 3 {
        assert_eq!(first.world_transform(id), second.world_transform(id));
        id += 1;
    }
}

#[test]
fn a_long_chain_is_composed_from_the_root_down() {
    let mut solar = Solar::new();
    solar.add_body(1u64, None).unwrap();
    let mut id = 1;
    while id < 1000 {
        assert_eq!(solar.add_body(1u64, Some(id - 1)), Ok(id));
        id += 1;
    }
    let worlds = solar.update(|own: &u64, parent: Option<&u64>| own + parent.copied().unwrap_or(0));
    assert_eq!(worlds.world_transform(0), Ok(&1));
    assert_eq!(worlds.world_transform(999), Ok(&1000));
}

#[test]
fn a_body_added_after_an_update_is_in_the_next_one() {
    let mut solar = Solar::new();
    solar.add_body(1u64, None).unwrap();
    let before = solar.update(sum);
    solar.add_body(2u64, Some(0)).unwrap();
    let after = solar.update(sum);
    assert_eq!(before.world_transform(1), Err(SceneError::UnknownBody));
    assert_eq!(after.world_transform(1), Ok(&12));
}

//! Drop demos: destructor ordering for nested values.

struct HasDrop;

impl Drop for HasDrop {
    fn drop(&mut self) {
        println!("Dropping HasDrop!");
    }
}

#[allow(dead_code)]
struct HasTwoDrop {
    one: HasDrop,
    two: HasDrop,
}

impl Drop for HasTwoDrop {
    fn drop(&mut self) {
        println!("Dropping HasTwoDrop!");
    }
}

#[allow(dead_code)]
struct HasTwoDropWithoutDropTrait {
    one: HasDrop,
    two: HasDrop,
}

#[test]
fn drop_self() {
    let _foo = HasDrop;

    println!("Running drop_self!");
}

#[test]
fn drop_demo_drop_self() {
    let _foo = HasDrop;

    println!("Running drop_self!");
}

#[test]
fn drop_self_and_all_contained_fields() {
    let _foo = HasTwoDrop {
        one: HasDrop,
        two: HasDrop,
    };

    println!("Running drop_self_and_all_contained_fields!")
}

#[test]
fn drop_demo_drop_self_and_all_contained_fields() {
    let _foo = HasTwoDrop {
        one: HasDrop,
        two: HasDrop,
    };

    println!("Running drop_self_and_all_contained_fields!")
}

#[test]
fn drop_all_contained_fields() {
    let _foo = HasTwoDropWithoutDropTrait {
        one: HasDrop,
        two: HasDrop,
    };

    println!("Running drop_all_contained_fields!")
}

#[test]
fn drop_demo_drop_all_contained_fields() {
    let _foo = HasTwoDropWithoutDropTrait {
        one: HasDrop,
        two: HasDrop,
    };

    println!("Running drop_all_contained_fields!")
}

#[test]
fn drop_manually() {
    let foo = HasDrop;

    println!("HasDrop crated.");
    drop(foo);
    println!("HasDrop dropped before the end of the function.");
}

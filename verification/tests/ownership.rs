//! Ownership and borrowing demos: move and copy semantics, references,
//! and lifetimes of stack references.

fn calc_move(_: Vec<i32>) {}

fn calc_copy(_: i32) {}

fn calc_ref(_: &i32) {}

fn sum(value: &Vec<u32>) -> u32 {
    println!("[sum] addr of value: {:p}", value);
    println!("[sum] addr of ref: {:p}", &value);

    value.iter().fold(0, |acc, x| acc + x)
}

#[test]
fn ownership_with_move() {
    let arr = vec![1];

    // 传参在默认情况下是 Move 语义，会导致所有权转移
    calc_move(arr);
}

#[test]
fn ownership_with_copy() {
    let value = 666;

    // i32 实现了 Copy trait，传参使用 Copy 语义，所有权不会转移
    calc_copy(value);

    println!("value: {:?}", value);
}

#[test]
fn reference() {
    let value = 666;
    let ref_value = &value;

    // 引用实现了 Copy trait，因此在传递给函数后仍能继续使用
    calc_ref(ref_value);

    println!("ref_value: {:?}", ref_value);
}

#[test]
fn borrow() {
    let value = vec![1, 2, 3, 4];
    let borrowed_value = &value;

    println!("addr of value: {:p}({:p})", &value, borrowed_value);
    println!(
        "addr of borrowed_value: {:p}({:p})",
        &&value, &borrowed_value
    );

    println!("sum of borrowed_value: {}", sum(borrowed_value));

    println!(
        "addr of items: [{:p}, {:p}, {:p}, {:p}]",
        &value[0], &value[1], &value[2], &value[3]
    );
}

#[test]
fn life_time() {
    // 返回局部变量引用的函数无法通过编译，这里仅保留该场景的说明。
}

#[test]
fn ref_to_stack_in_heap() {
    let mut ref_value_arr: Vec<&u32> = Vec::new();

    let value = 666;
    ref_value_arr.push(&value);

    println!("ref_value_arr: {:?}", ref_value_arr);
}

use pong::color::Color;
use pong::field::Field;
use pong::field::WALL_THICKNESS;
use pong::menu::Menu;
use pong::menu_item::MenuItem;
use pong::player::Player;
use pong::wall::Wall;

#[test]
fn field_builds_the_four_boundary_walls() {
    // The standard window: 600 by 400 world units with a margin of 15.
    let f = Field::new(60000, 40000, 1500);
    assert_eq!(f.background_color, Color { red: 0, green: 0, blue: 0, alpha: 255 });

    let top = &f.external_walls[0];
    assert_eq!(top.position_x, -28500);
    assert_eq!(top.position_y, -18500);
    assert_eq!(top.width, 57000);
    assert_eq!(top.height, 500);
    assert_eq!(top.rotation, 0);

    let right = &f.external_walls[1];
    assert_eq!(right.position_x, 28500);
    assert_eq!(right.position_y, -18500);
    assert_eq!(right.width, 500);
    assert_eq!(right.height, 37000);
    assert_eq!(right.rotation, 9000);

    let bottom = &f.external_walls[2];
    assert_eq!(bottom.position_x, -28500);
    assert_eq!(bottom.position_y, 18000);
    assert_eq!(bottom.width, 57000);
    assert_eq!(bottom.height, 500);

    let left = &f.external_walls[3];
    assert_eq!(left.position_x, -28500);
    assert_eq!(left.position_y, -18500);
    assert_eq!(left.width, 500);
    assert_eq!(left.height, 37000);

    for wall in f.external_walls.iter() {
        assert_eq!(wall.color, Color { red: 255, green: 255, blue: 255, alpha: 255 });
    }
}

#[test]
fn wall_new_keeps_its_arguments() {
    let w = Wall::new(700, 80, -90, 60, 0);
    assert_eq!(w.width, 700);
    assert_eq!(w.height, 80);
    assert_eq!(w.position_x, -90);
    assert_eq!(w.position_y, 60);
    assert_eq!(w.rotation, 0);
    assert_eq!(w.color, Color { red: 255, green: 255, blue: 255, alpha: 255 });
    assert_eq!(WALL_THICKNESS, 500);
}

#[test]
fn menu_has_three_entries_in_layout_order() {
    let m = Menu::new();
    assert_eq!(m.selected_item, 0);
    assert_eq!(m.items.len(), 3);
    assert_eq!(m.items[0].text, "Retomar");
    assert_eq!(m.items[1].text, "Opcões");
    assert_eq!(m.items[2].text, "Sair");
    for (offset, item) in m.items.iter().enumerate() {
        let index = (offset + 1) as u8;
        assert_eq!(item.index, index);
        assert_eq!(item.position_x, 0);
        // Entries stack two heights plus two margins apart.
        assert_eq!(item.position_y, (index as i64) * 9000);
        assert_eq!(item.width, 20000);
        assert_eq!(item.height, 3000);
    }
}

#[test]
fn menu_item_layout_follows_its_index() {
    let item = MenuItem::new(2, String::from("Retomar"));
    assert_eq!(item.position_y, 18000);
    assert_eq!(item.text_color, Color { red: 255, green: 255, blue: 255, alpha: 255 });
    assert_eq!(item.background_color, Color { red: 0, green: 0, blue: 0, alpha: 255 });
}

#[test]
fn player_movement_and_scoring() {
    let mut p = Player::new(25000, 1);
    assert_eq!(p.position_y, -3000);
    p.move_up();
    assert_eq!(p.position_y, -3500);
    p.move_down();
    p.move_down();
    assert_eq!(p.position_y, -2500);
    p.make_point();
    p.make_point();
    assert_eq!(p.score, 2);
    p.reset_score();
    assert_eq!(p.score, 0);
}

#[test]
fn player_reset_returns_to_the_home_seat() {
    let mut right = Player::new(11, 1);
    right.position_y = 9000;
    right.reset_position();
    assert_eq!(right.position_x, 25000);
    assert_eq!(right.position_y, -3000);

    let mut left = Player::new(-11, 2);
    left.position_y = -9000;
    left.reset_position();
    assert_eq!(left.position_x, -25000);
    assert_eq!(left.position_y, -3000);
}

#[test]
fn colors_expose_their_channels() {
    let white = Color::white();
    let black = Color::black();
    assert_eq!(white.red, 255);
    assert_eq!(white.alpha, 255);
    assert_eq!(black.red, 0);
    assert_eq!(black.alpha, 255);
    assert_ne!(white, black);
}

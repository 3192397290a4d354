# picoplay

The game logic of PicoPlay, a handheld console built on a Raspberry Pi Pico 2 W
with an ILI9341 display and three buttons, verified with Verus.

- `src/` is the verified library. `console::PicoPlay::step` takes the buttons
  that are held and returns the drawing commands of the next frame; the menu
  (`menu`), the Retro Heroes battle (`battle`), the still preview of the menu
  (`preview`), the bring-up of the WiFi connection (`network`) and the buzzer
  level (`hardware`) are verified functions with exact contracts. The random
  numbers (`random`, from `biski64`) and the health status lines (`text`,
  formatted with `heapless`) come from outside crates through trusted
  wrappers whose contracts state what those crates do. `laws` holds the
  properties that hold across steps.
- `app/` is the program around it: on the console, the firmware (peripheral
  set-up, WiFi, the button reads and the drawing on the display); on a
  desktop, the preview window of the menu.

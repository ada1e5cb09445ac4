# dual-cursor

Two independent artificial cursors on Wayland, each driven by a mouse of its own.

* Two reader threads grab their mice and send movements and button changes.
* Each cursor is a layer surface above everything. Clicks go through it.
* A movement sets the margins of the surface.
* A click goes through a virtual mouse, which is first moved to the cursor's position.

`src/` is the library. It takes every decision, does no I/O, and is verified with
Verus. `app/` is the program around it: the Wayland connection, the input devices and
the files. `tests/` runs the library on concrete values.

Movement is counted in half pixels, since one step of a mouse is one and a half pixels.

## Cursor images

`assets/cur_white.png` and `assets/cur_black.png` are read from the working directory.
Both must have the same size, e.g. 32×32 px, and be 8-bit RGBA or RGB files.

## Prerequisites

    sudo usermod -aG input $USER     # to read the mice
    sudo usermod -aG uinput $USER    # to inject clicks
    sudo chmod a+rw /dev/uinput      # the same, until the next reboot

Log in again after each `usermod`.

On KDE, layer surfaces may have to be enabled:

    kwriteconfig6 --file kwinrc --group Plugins \
      --key kwin_wayland_layershellenabledPlugin true
    qdbus6 org.kde.KWin /KWin reconfigure
